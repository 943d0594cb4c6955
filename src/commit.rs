//! Ticket intake: single, batched and pre-authorised batched commits.
use vstd::prelude::*;

use crate::book::{
    has_key, lemma_count_append, lemma_count_push, ledger_consistent, occupied, pending, TicketBook,
};
use crate::codec::{bit_index_of, commit_msg, derive_bit_index, expected_commit_msg};
use crate::constants::MAX_BATCH;
use crate::ed25519::{
    attestation_error, check_attestation, Instruction,
};
use crate::error::TimlgError;
use crate::pubkey::Pubkey;
use crate::state::{round_step, CommitEntry, CommitSignedEntry, Config, Round, Ticket};

verus! {

/// The ticket that a commit creates.
pub open spec fn new_ticket(
    round_id: u64,
    user: Pubkey,
    nonce: u64,
    commitment: [u8; 32],
    slot: u64,
) -> Ticket {
    Ticket {
        round_id,
        user,
        nonce,
        commitment,
        stake_paid: true,
        stake_slashed: false,
        processed: false,
        revealed: false,
        guess: 0,
        win: false,
        bit_index: bit_index_of(round_id, user@, nonce),
        claimed: false,
        claimed_slot: 0,
        created_slot: slot,
        revealed_slot: 0,
    }
}

/// Why the commit window refuses a commit at `slot`, if it does.
pub open spec fn commit_window_error(cfg: Config, round: Round, slot: u64) -> Option<TimlgError> {
    if cfg.paused {
        Some(TimlgError::Paused)
    } else if round.finalized {
        Some(TimlgError::RoundFinalized)
    } else if round.pulse_set {
        Some(TimlgError::CommitAfterPulseSet)
    } else if slot > round.commit_deadline_slot {
        Some(TimlgError::CommitClosed)
    } else {
        None
    }
}

fn check_commit_window(cfg: &Config, round: &Round, slot: u64) -> (r: Result<(), TimlgError>)
    ensures
        r matches Err(e) ==> commit_window_error(*cfg, *round, slot) == Some(e),
        r is Ok ==> commit_window_error(*cfg, *round, slot) is None,
{
    if cfg.paused {
        return Err(TimlgError::Paused);
    }
    if round.finalized {
        return Err(TimlgError::RoundFinalized);
    }
    if round.pulse_set {
        return Err(TimlgError::CommitAfterPulseSet);
    }
    if slot > round.commit_deadline_slot {
        return Err(TimlgError::CommitClosed);
    }
    Ok(())
}

/// Why a single commit is refused, if it is.
pub open spec fn commit_ticket_error(
    cfg: Config,
    round: Round,
    book: Seq<Ticket>,
    user: Pubkey,
    round_id: u64,
    nonce: u64,
    slot: u64,
) -> Option<TimlgError> {
    if round.round_id != round_id {
        Some(TimlgError::TicketPdaMismatch)
    } else if occupied(book, round_id, user@, nonce) {
        Some(TimlgError::TicketAlreadyExists)
    } else if commit_window_error(cfg, round, slot) is Some {
        commit_window_error(cfg, round, slot)
    } else if round.committed_count == u64::MAX {
        Some(TimlgError::MathOverflow)
    } else {
        None
    }
}

/// Commits one ticket: records the commitment under key
/// `(round_id, user, nonce)` with its derived bit index and counts it.
/// On success returns the stake to move from the user into the round's
/// token vault. A refused commit changes nothing.
pub fn commit_ticket(
    cfg: &Config,
    round: &mut Round,
    book: &mut TicketBook,
    user: &Pubkey,
    round_id: u64,
    nonce: u64,
    commitment: [u8; 32],
    current_slot: u64,
) -> (r: Result<u64, TimlgError>)
    requires
        old(book).wf(),
    ensures
        r is Ok && ledger_consistent(*old(round), old(book)@) ==> ledger_consistent(
            *final(round),
            final(book)@,
        ),
        old(round).wf() ==> final(round).wf() && round_step(*old(round), *final(round)),
        final(book).wf(),
        match commit_ticket_error(*cfg, *old(round), old(book)@, *user, round_id, nonce, current_slot) {
            Some(e) => r == Err::<u64, TimlgError>(e) && *final(round) == *old(round) && final(book)@
                == old(book)@,
            None => r == Ok::<u64, TimlgError>(cfg.stake_amount) && final(book)@ == old(book)@.push(
                new_ticket(round_id, *user, nonce, commitment, current_slot),
            ) && *final(round) == (Round {
                committed_count: (old(round).committed_count + 1) as u64,
                ..*old(round)
            }),
        },
{
    if round.round_id != round_id {
        return Err(TimlgError::TicketPdaMismatch);
    }
    if book.find(round_id, user, nonce).is_some() {
        return Err(TimlgError::TicketAlreadyExists);
    }
    check_commit_window(cfg, round, current_slot)?;
    if round.committed_count == u64::MAX {
        return Err(TimlgError::MathOverflow);
    }
    let ticket = Ticket {
        round_id,
        user: *user,
        nonce,
        commitment,
        stake_paid: true,
        stake_slashed: false,
        processed: false,
        revealed: false,
        guess: 0,
        win: false,
        bit_index: derive_bit_index(round_id, user, nonce),
        claimed: false,
        claimed_slot: 0,
        created_slot: current_slot,
        revealed_slot: 0,
    };
    proof {
        lemma_count_push(book@, ticket, round_id);
    }
    book.insert(ticket);
    round.committed_count = round.committed_count + 1;
    Ok(cfg.stake_amount)
}

/// The nonces of a batch, in order.
pub open spec fn entry_nonces(entries: Seq<CommitEntry>) -> Seq<u64> {
    entries.map_values(|e: CommitEntry| e.nonce)
}

/// Whether entry `i` of a batch targets a key already taken, by the ledger
/// or by an earlier entry of the same batch.
pub open spec fn entry_replayed(
    book: Seq<Ticket>,
    round_id: u64,
    user: Seq<u8>,
    nonces: Seq<u64>,
    i: int,
) -> bool {
    occupied(book, round_id, user, nonces[i]) || exists|j: int|
        0 <= j < i && #[trigger] nonces[j] == nonces[i]
}

/// Whether some entry of a batch is a replay.
pub open spec fn batch_replayed(
    book: Seq<Ticket>,
    round_id: u64,
    user: Seq<u8>,
    nonces: Seq<u64>,
) -> bool {
    exists|i: int| 0 <= i < nonces.len() && #[trigger] entry_replayed(book, round_id, user, nonces, i)
}

/// The tickets that a batch creates, in entry order.
pub open spec fn batch_tickets(
    round_id: u64,
    user: Pubkey,
    entries: Seq<CommitEntry>,
    slot: u64,
) -> Seq<Ticket> {
    entries.map_values(|e: CommitEntry| new_ticket(round_id, user, e.nonce, e.commitment, slot))
}

proof fn lemma_batch_pending(round_id: u64, user: Pubkey, entries: Seq<CommitEntry>, slot: u64)
    ensures
        forall|i: int|
            0 <= i < entries.len() ==> pending(
                #[trigger] batch_tickets(round_id, user, entries, slot)[i],
                round_id,
            ),
{
}

fn batch_has_replay(book: &TicketBook, round_id: u64, user: &Pubkey, entries: &Vec<CommitEntry>) -> (r: bool)
    ensures
        r == batch_replayed(book@, round_id, user@, entry_nonces(entries@)),
{
    let ghost nonces = entry_nonces(entries@);
    let mut i: usize = 0;
    while i < entries.len()
        invariant
            i <= entries@.len(),
            nonces == entry_nonces(entries@),
            forall|k: int| 0 <= k < i ==> !#[trigger] entry_replayed(book@, round_id, user@, nonces, k),
        decreases entries@.len() - i,
    {
        let nonce = entries[i].nonce;
        if book.find(round_id, user, nonce).is_some() {
            assert(entry_replayed(book@, round_id, user@, nonces, i as int));
            return true;
        }
        let mut j: usize = 0;
        while j < i
            invariant
                j <= i,
                i < entries@.len(),
                nonce == entries@[i as int].nonce,
                nonces == entry_nonces(entries@),
                forall|k: int| 0 <= k < j ==> #[trigger] nonces[k] != nonces[i as int],
            decreases i - j,
        {
            if entries[j].nonce == nonce {
                assert(nonces[j as int] == nonces[i as int]);
                assert(entry_replayed(book@, round_id, user@, nonces, i as int));
                return true;
            }
            j = j + 1;
        }
        assert(!entry_replayed(book@, round_id, user@, nonces, i as int));
        i = i + 1;
    }
    false
}

fn insert_batch(book: &mut TicketBook, round_id: u64, user: &Pubkey, entries: &Vec<CommitEntry>, slot: u64)
    requires
        old(book).wf(),
        !batch_replayed(old(book)@, round_id, user@, entry_nonces(entries@)),
    ensures
        final(book).wf(),
        final(book)@ == old(book)@ + batch_tickets(round_id, *user, entries@, slot),
{
    let ghost nonces = entry_nonces(entries@);
    let ghost tickets = batch_tickets(round_id, *user, entries@, slot);
    let mut i: usize = 0;
    while i < entries.len()
        invariant
            i <= entries@.len(),
            nonces == entry_nonces(entries@),
            tickets == batch_tickets(round_id, *user, entries@, slot),
            book.wf(),
            book@ == old(book)@ + tickets.take(i as int),
            !batch_replayed(old(book)@, round_id, user@, nonces),
        decreases entries@.len() - i,
    {
        let e = entries[i];
        assert(!entry_replayed(old(book)@, round_id, user@, nonces, i as int));
        assert forall|k: int| 0 <= k < book@.len() implies !has_key(
            #[trigger] book@[k],
            round_id,
            user@,
            e.nonce,
        ) by {
            if k < old(book)@.len() {
                assert(book@[k] == old(book)@[k]);
            } else {
                let j = k - old(book)@.len();
                assert(book@[k] == tickets[j]);
                assert(nonces[j] == tickets[j].nonce);
            }
        }
        let t = Ticket {
            round_id,
            user: *user,
            nonce: e.nonce,
            commitment: e.commitment,
            stake_paid: true,
            stake_slashed: false,
            processed: false,
            revealed: false,
            guess: 0,
            win: false,
            bit_index: derive_bit_index(round_id, user, e.nonce),
            claimed: false,
            claimed_slot: 0,
            created_slot: slot,
            revealed_slot: 0,
        };
        book.insert(t);
        i = i + 1;
        assert(tickets.take(i as int) =~= tickets.take(i - 1).push(t));
    }
    assert(tickets.take(entries@.len() as int) =~= tickets);
}

/// Why a batched commit is refused, if it is.
pub open spec fn commit_batch_error(
    cfg: Config,
    round: Round,
    book: Seq<Ticket>,
    user: Pubkey,
    round_id: u64,
    entries: Seq<CommitEntry>,
    slot: u64,
) -> Option<TimlgError> {
    if round.round_id != round_id {
        Some(TimlgError::TicketPdaMismatch)
    } else if cfg.paused {
        Some(TimlgError::Paused)
    } else if entries.len() > MAX_BATCH {
        Some(TimlgError::TooManyEntries)
    } else if commit_window_error(cfg, round, slot) is Some {
        commit_window_error(cfg, round, slot)
    } else if cfg.stake_amount * entries.len() > u64::MAX {
        Some(TimlgError::MathOverflow)
    } else if batch_replayed(book, round_id, user@, entry_nonces(entries)) {
        Some(TimlgError::TicketAlreadyExists)
    } else if round.committed_count + entries.len() > u64::MAX {
        Some(TimlgError::MathOverflow)
    } else {
        None
    }
}

/// Commits a batch of tickets for one user in one atomic step. Any refusal,
/// a replayed key among them, leaves the round and the ledger unchanged and
/// moves nothing. On success returns the total stake to move from the user
/// into the round's token vault.
pub fn commit_batch(
    cfg: &Config,
    round: &mut Round,
    book: &mut TicketBook,
    user: &Pubkey,
    round_id: u64,
    entries: &Vec<CommitEntry>,
    current_slot: u64,
) -> (r: Result<u64, TimlgError>)
    requires
        old(book).wf(),
    ensures
        r is Ok && ledger_consistent(*old(round), old(book)@) ==> ledger_consistent(
            *final(round),
            final(book)@,
        ),
        old(round).wf() ==> final(round).wf() && round_step(*old(round), *final(round)),
        final(book).wf(),
        match commit_batch_error(*cfg, *old(round), old(book)@, *user, round_id, entries@, current_slot) {
            Some(e) => r == Err::<u64, TimlgError>(e) && *final(round) == *old(round) && final(book)@
                == old(book)@,
            None => r == Ok::<u64, TimlgError>((cfg.stake_amount * entries@.len()) as u64)
                && final(book)@ == old(book)@ + batch_tickets(round_id, *user, entries@, current_slot)
                && *final(round) == (Round {
                committed_count: (old(round).committed_count + entries@.len()) as u64,
                ..*old(round)
            }),
        },
{
    if round.round_id != round_id {
        return Err(TimlgError::TicketPdaMismatch);
    }
    if cfg.paused {
        return Err(TimlgError::Paused);
    }
    if entries.len() > MAX_BATCH {
        return Err(TimlgError::TooManyEntries);
    }
    check_commit_window(cfg, round, current_slot)?;
    let n = entries.len() as u64;
    let total = match cfg.stake_amount.checked_mul(n) {
        Some(t) => t,
        None => {
            return Err(TimlgError::MathOverflow);
        },
    };
    if batch_has_replay(book, round_id, user, entries) {
        return Err(TimlgError::TicketAlreadyExists);
    }
    let count = match round.committed_count.checked_add(n) {
        Some(c) => c,
        None => {
            return Err(TimlgError::MathOverflow);
        },
    };
    insert_batch(book, round_id, user, entries, current_slot);
    proof {
        lemma_batch_pending(round_id, *user, entries@, current_slot);
        lemma_count_append(old(book)@, batch_tickets(round_id, *user, entries@, current_slot), round_id);
    }
    round.committed_count = count;
    Ok(total)
}

/// The first refused attestation among the entries from position `i` on,
/// entry `k` being attested by instruction `first + k` of the transaction.
pub open spec fn commit_sigs_error(
    tx: Seq<Instruction>,
    first: int,
    program_id: Seq<u8>,
    round_id: u64,
    entries: Seq<CommitSignedEntry>,
    i: int,
) -> Option<TimlgError>
    decreases entries.len() - i,
{
    if i < 0 || i >= entries.len() {
        None
    } else {
        let e = entries[i];
        match attestation_error(
            tx,
            first + i,
            e.user@,
            commit_msg(program_id, round_id, e.user@, e.nonce, e.commitment@),
        ) {
            Some(err) => Some(err),
            None => commit_sigs_error(tx, first, program_id, round_id, entries, i + 1),
        }
    }
}

/// The plain entries of a pre-authorised batch.
pub open spec fn signed_as_plain(entries: Seq<CommitSignedEntry>) -> Seq<CommitEntry> {
    entries.map_values(|e: CommitSignedEntry| CommitEntry { nonce: e.nonce, commitment: e.commitment })
}

/// Why a pre-authorised batched commit is refused, if it is.
pub open spec fn commit_batch_signed_error(
    cfg: Config,
    round: Round,
    book: Seq<Ticket>,
    program_id: Pubkey,
    user: Pubkey,
    round_id: u64,
    entries: Seq<CommitSignedEntry>,
    tx: Seq<Instruction>,
    current_ix: usize,
    slot: u64,
) -> Option<TimlgError> {
    let n = entries.len();
    if round.round_id != round_id {
        Some(TimlgError::TicketPdaMismatch)
    } else if cfg.paused {
        Some(TimlgError::Paused)
    } else if n > MAX_BATCH {
        Some(TimlgError::TooManyEntries)
    } else if commit_window_error(cfg, round, slot) is Some {
        commit_window_error(cfg, round, slot)
    } else if exists|i: int| 0 <= i < n && (#[trigger] entries[i]).user@ != user@ {
        Some(TimlgError::SignedBatchMixedUsers)
    } else if current_ix < n {
        Some(TimlgError::MissingOrInvalidEd25519Ix)
    } else if commit_sigs_error(tx, current_ix - n, program_id@, round_id, entries, 0) is Some {
        commit_sigs_error(tx, current_ix - n, program_id@, round_id, entries, 0)
    } else if batch_replayed(book, round_id, user@, entry_nonces(signed_as_plain(entries))) {
        Some(TimlgError::TicketAlreadyExists)
    } else if cfg.stake_amount * n > u64::MAX {
        Some(TimlgError::MathOverflow)
    } else if round.committed_count + n > u64::MAX {
        Some(TimlgError::MathOverflow)
    } else {
        None
    }
}

/// Commits a batch that a relayer submits for one user, each entry
/// authorised by the user's signature, attested by the `n` instructions
/// that immediately precede instruction `current_ix` of transaction `tx`.
/// Replays are refused before any value moves. On success returns the total
/// stake to move from the user's escrow into the round's token vault; any
/// refusal changes nothing.
#[verifier::loop_isolation(false)]
pub fn commit_batch_signed(
    cfg: &Config,
    round: &mut Round,
    book: &mut TicketBook,
    program_id: &Pubkey,
    user: &Pubkey,
    round_id: u64,
    entries: &Vec<CommitSignedEntry>,
    tx: &Vec<Instruction>,
    current_ix: usize,
    current_slot: u64,
) -> (r: Result<u64, TimlgError>)
    requires
        old(book).wf(),
    ensures
        r is Ok && ledger_consistent(*old(round), old(book)@) ==> ledger_consistent(
            *final(round),
            final(book)@,
        ),
        old(round).wf() ==> final(round).wf() && round_step(*old(round), *final(round)),
        final(book).wf(),
        match commit_batch_signed_error(
            *cfg,
            *old(round),
            old(book)@,
            *program_id,
            *user,
            round_id,
            entries@,
            tx@,
            current_ix,
            current_slot,
        ) {
            Some(e) => r == Err::<u64, TimlgError>(e) && *final(round) == *old(round) && final(book)@
                == old(book)@,
            None => r == Ok::<u64, TimlgError>((cfg.stake_amount * entries@.len()) as u64)
                && final(book)@ == old(book)@ + batch_tickets(
                round_id,
                *user,
                signed_as_plain(entries@),
                current_slot,
            ) && *final(round) == (Round {
                committed_count: (old(round).committed_count + entries@.len()) as u64,
                ..*old(round)
            }),
        },
{
    if round.round_id != round_id {
        return Err(TimlgError::TicketPdaMismatch);
    }
    if cfg.paused {
        return Err(TimlgError::Paused);
    }
    let n = entries.len();
    if n > MAX_BATCH {
        return Err(TimlgError::TooManyEntries);
    }
    check_commit_window(cfg, round, current_slot)?;
    let mut i: usize = 0;
    while i < n
        invariant
            i <= n,
            n == entries@.len(),
            forall|k: int| 0 <= k < i ==> (#[trigger] entries@[k]).user@ == user@,
        decreases n - i,
    {
        if !(entries[i].user == *user) {
            assert((entries@[i as int]).user@ != user@);
            return Err(TimlgError::SignedBatchMixedUsers);
        }
        i = i + 1;
    }
    if current_ix < n {
        return Err(TimlgError::MissingOrInvalidEd25519Ix);
    }
    let first = current_ix - n;
    let mut i: usize = 0;
    while i < n
        invariant
            i <= n,
            n == entries@.len(),
            first == current_ix - n,
            commit_sigs_error(tx@, first as int, program_id@, round_id, entries@, 0)
                == commit_sigs_error(tx@, first as int, program_id@, round_id, entries@, i as int),
        decreases n - i,
    {
        let e = entries[i];
        let msg = expected_commit_msg(program_id, round_id, &e.user, e.nonce, &e.commitment);
        let checked = check_attestation(tx, first + i, &e.user, msg.as_slice());
        assert(commit_sigs_error(tx@, first as int, program_id@, round_id, entries@, i as int)
            == match attestation_error(
            tx@,
            first + i,
            e.user@,
            commit_msg(program_id@, round_id, e.user@, e.nonce, e.commitment@),
        ) {
            Some(err) => Some(err),
            None => commit_sigs_error(tx@, first as int, program_id@, round_id, entries@, i + 1),
        });
        if let Err(err) = checked {
            return Err(err);
        }
        i = i + 1;
    }
    let mut plain: Vec<CommitEntry> = Vec::new();
    let mut i: usize = 0;
    while i < n
        invariant
            i <= n,
            n == entries@.len(),
            plain@ == signed_as_plain(entries@).take(i as int),
        decreases n - i,
    {
        let e = entries[i];
        plain.push(CommitEntry { nonce: e.nonce, commitment: e.commitment });
        i = i + 1;
        assert(plain@ =~= signed_as_plain(entries@).take(i as int));
    }
    assert(plain@ =~= signed_as_plain(entries@));
    if batch_has_replay(book, round_id, user, &plain) {
        return Err(TimlgError::TicketAlreadyExists);
    }
    let total = match cfg.stake_amount.checked_mul(n as u64) {
        Some(t) => t,
        None => {
            return Err(TimlgError::MathOverflow);
        },
    };
    let count = match round.committed_count.checked_add(n as u64) {
        Some(c) => c,
        None => {
            return Err(TimlgError::MathOverflow);
        },
    };
    insert_batch(book, round_id, user, &plain, current_slot);
    proof {
        lemma_batch_pending(round_id, *user, plain@, current_slot);
        lemma_count_append(old(book)@, batch_tickets(round_id, *user, plain@, current_slot), round_id);
    }
    round.committed_count = count;
    Ok(total)
}

} // verus!
