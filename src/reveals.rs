//! The reveal engine: checks a revealed guess against its commitment and the
//! published pulse, marks the ticket won or lost, and counts it.
use vstd::prelude::*;

use crate::book::{
    count_pending, has_key, lemma_count_update, ledger_consistent, occupied, ticket_index, TicketBook,
};
use crate::bytes::bytes_eq;
use crate::codec::{
    bit_index_of, commit_hash, commitment_of, derive_bit_index, expected_reveal_msg, get_pulse_bit,
    pulse_bit, reveal_msg,
};
use crate::constants::MAX_BATCH;
use crate::ed25519::{attestation_error, check_attestation, Instruction};
use crate::error::TimlgError;
use crate::pubkey::Pubkey;
use crate::state::{round_step, Config, RevealEntry, RevealSignedEntry, Round, Ticket};

verus! {

/// Why a reveal of `t` does not match what was committed, if it does not.
pub open spec fn reveal_core_error(
    t: Ticket,
    user: Seq<u8>,
    round_id: u64,
    nonce: u64,
    guess: u8,
    salt: Seq<u8>,
) -> Option<TimlgError> {
    if commitment_of(round_id, user, nonce, guess, salt) != t.commitment@ {
        Some(TimlgError::CommitmentMismatch)
    } else if bit_index_of(round_id, user, nonce) != t.bit_index {
        Some(TimlgError::BitIndexMismatch)
    } else {
        None
    }
}

/// Ticket `t` once revealed with `guess` at `slot`: it wins exactly when the
/// pulse bit it bets on equals the guess.
pub open spec fn revealed_ticket(round: Round, t: Ticket, guess: u8, slot: u64) -> Ticket {
    Ticket {
        revealed: true,
        guess,
        win: pulse_bit(round.pulse@, t.bit_index as int) == guess,
        revealed_slot: slot,
        ..t
    }
}

/// Checks a revealed guess and salt against ticket `ticket` and marks it
/// won or lost against the round's pulse.
pub fn reveal_core(
    round: &Round,
    ticket: &mut Ticket,
    user_pk: Pubkey,
    round_id: u64,
    nonce: u64,
    guess: u8,
    salt: [u8; 32],
    current_slot: u64,
) -> (r: Result<(), TimlgError>)
    ensures
        match reveal_core_error(*old(ticket), user_pk@, round_id, nonce, guess, salt@) {
            Some(e) => r == Err::<(), TimlgError>(e) && *final(ticket) == *old(ticket),
            None => r is Ok && *final(ticket) == revealed_ticket(
                *round,
                *old(ticket),
                guess,
                current_slot,
            ),
        },
        r is Ok ==> final(ticket).bit_index == bit_index_of(round_id, user_pk@, nonce),
        r is Ok ==> final(ticket).win == (pulse_bit(round.pulse@, final(ticket).bit_index as int)
            == guess),
{
    let computed = commit_hash(round_id, &user_pk, nonce, guess, &salt);
    if !bytes_eq(computed.as_slice(), ticket.commitment.as_slice()) {
        return Err(TimlgError::CommitmentMismatch);
    }
    let derived = derive_bit_index(round_id, &user_pk, nonce);
    if ticket.bit_index != derived {
        return Err(TimlgError::BitIndexMismatch);
    }
    let bit = get_pulse_bit(&round.pulse, ticket.bit_index);
    ticket.revealed = true;
    ticket.guess = guess;
    ticket.win = bit == guess;
    ticket.revealed_slot = current_slot;
    Ok(())
}

/// Whether counting one more reveal (and win) would overflow.
pub open spec fn counters_overflow(round: Round, did_win: bool) -> bool {
    round.revealed_count == u64::MAX || (did_win && round.win_count == u64::MAX)
}

/// The round after counting one more reveal, and one more win if `did_win`.
pub open spec fn counted(round: Round, did_win: bool) -> Round {
    Round {
        revealed_count: (round.revealed_count + 1) as u64,
        win_count: if did_win {
            (round.win_count + 1) as u64
        } else {
            round.win_count
        },
        ..round
    }
}

/// Counts one more reveal, and one more win if `did_win`.
pub fn inc_reveal_counters(round: &mut Round, did_win: bool) -> (r: Result<(), TimlgError>)
    ensures
        counters_overflow(*old(round), did_win) ==> r == Err::<(), TimlgError>(
            TimlgError::MathOverflow,
        ) && *final(round) == *old(round),
        !counters_overflow(*old(round), did_win) ==> r is Ok && *final(round) == counted(
            *old(round),
            did_win,
        ),
{
    if round.revealed_count == u64::MAX {
        return Err(TimlgError::MathOverflow);
    }
    if did_win && round.win_count == u64::MAX {
        return Err(TimlgError::MathOverflow);
    }
    round.revealed_count = round.revealed_count + 1;
    if did_win {
        round.win_count = round.win_count + 1;
    }
    Ok(())
}

/// The result of revealing the ticket at `k` of `book`, once the round-level
/// gates have passed.
pub open spec fn reveal_at(
    round: Round,
    book: Seq<Ticket>,
    k: int,
    user: Seq<u8>,
    round_id: u64,
    nonce: u64,
    guess: u8,
    salt: Seq<u8>,
    slot: u64,
) -> Result<(Round, Seq<Ticket>), TimlgError> {
    let t = book[k];
    if t.revealed {
        Err(TimlgError::AlreadyRevealed)
    } else if reveal_core_error(t, user, round_id, nonce, guess, salt) is Some {
        Err(reveal_core_error(t, user, round_id, nonce, guess, salt)->0)
    } else {
        let t2 = revealed_ticket(round, t, guess, slot);
        if counters_overflow(round, t2.win) {
            Err(TimlgError::MathOverflow)
        } else {
            Ok((counted(round, t2.win), book.update(k, t2)))
        }
    }
}

fn reveal_one(
    round: &mut Round,
    book: &mut TicketBook,
    k: usize,
    user: &Pubkey,
    round_id: u64,
    nonce: u64,
    guess: u8,
    salt: [u8; 32],
    slot: u64,
) -> (r: Result<(), TimlgError>)
    requires
        old(book).wf(),
        k < old(book)@.len(),
        has_key(old(book)@[k as int], round_id, user@, nonce),
    ensures
        final(book).wf(),
        match reveal_at(*old(round), old(book)@, k as int, user@, round_id, nonce, guess, salt@, slot) {
            Err(e) => r == Err::<(), TimlgError>(e) && *final(round) == *old(round) && final(book)@
                == old(book)@,
            Ok((r2, b2)) => r is Ok && *final(round) == r2 && final(book)@ == b2,
        },
        old(round).wf() ==> final(round).wf() && round_step(*old(round), *final(round)),
        final(round).committed_count == old(round).committed_count,
        final(round).settled_count == old(round).settled_count,
        final(round).round_id == old(round).round_id,
        forall|rid: u64| count_pending(#[trigger] final(book)@, rid) == count_pending(old(book)@, rid),
{
    let mut t = book.ticket_at(k);
    if t.revealed {
        return Err(TimlgError::AlreadyRevealed);
    }
    reveal_core(round, &mut t, *user, round_id, nonce, guess, salt, slot)?;
    inc_reveal_counters(round, t.win)?;
    let ghost before = book@;
    book.replace(k, t);
    proof {
        assert forall|rid: u64| count_pending(book@, rid) == count_pending(before, rid) by {
            lemma_count_update(before, k as int, t, rid);
        }
    }
    Ok(())
}

/// Why the reveal window refuses reveals at `slot`, if it does.
pub open spec fn reveal_window_error(round: Round, slot: u64) -> Option<TimlgError> {
    if round.finalized {
        Some(TimlgError::RoundFinalized)
    } else if slot > round.reveal_deadline_slot {
        Some(TimlgError::RevealClosed)
    } else if !round.pulse_set {
        Some(TimlgError::PulseNotSet)
    } else {
        None
    }
}

/// The result of a single reveal.
pub open spec fn reveal_ticket_result(
    cfg: Config,
    round: Round,
    book: Seq<Ticket>,
    user: Pubkey,
    round_id: u64,
    nonce: u64,
    guess: u8,
    salt: Seq<u8>,
    slot: u64,
) -> Result<(Round, Seq<Ticket>), TimlgError> {
    if round.round_id != round_id || !occupied(book, round_id, user@, nonce) {
        Err(TimlgError::TicketPdaMismatch)
    } else if cfg.paused {
        Err(TimlgError::Paused)
    } else if guess > 1 {
        Err(TimlgError::InvalidGuess)
    } else if reveal_window_error(round, slot) is Some {
        Err(reveal_window_error(round, slot)->0)
    } else {
        reveal_at(
            round,
            book,
            ticket_index(book, round_id, user@, nonce),
            user@,
            round_id,
            nonce,
            guess,
            salt,
            slot,
        )
    }
}

/// Reveals the guess of ticket `(round_id, user, nonce)`: checks it against
/// the commitment, marks the ticket won or lost against the pulse, and
/// counts it once. A refused reveal changes nothing.
pub fn reveal_ticket(
    cfg: &Config,
    round: &mut Round,
    book: &mut TicketBook,
    user: &Pubkey,
    round_id: u64,
    nonce: u64,
    guess: u8,
    salt: [u8; 32],
    current_slot: u64,
) -> (r: Result<(), TimlgError>)
    requires
        old(book).wf(),
    ensures
        ledger_consistent(*old(round), old(book)@) ==> ledger_consistent(*final(round), final(book)@),
        old(round).wf() ==> final(round).wf() && round_step(*old(round), *final(round)),
        final(book).wf(),
        match reveal_ticket_result(
            *cfg,
            *old(round),
            old(book)@,
            *user,
            round_id,
            nonce,
            guess,
            salt@,
            current_slot,
        ) {
            Err(e) => r == Err::<(), TimlgError>(e) && *final(round) == *old(round) && final(book)@
                == old(book)@,
            Ok((r2, b2)) => r is Ok && *final(round) == r2 && final(book)@ == b2,
        },
{
    if round.round_id != round_id {
        return Err(TimlgError::TicketPdaMismatch);
    }
    let k = match book.find(round_id, user, nonce) {
        Some(k) => k,
        None => {
            return Err(TimlgError::TicketPdaMismatch);
        },
    };
    if cfg.paused {
        return Err(TimlgError::Paused);
    }
    if guess > 1 {
        return Err(TimlgError::InvalidGuess);
    }
    if round.finalized {
        return Err(TimlgError::RoundFinalized);
    }
    if current_slot > round.reveal_deadline_slot {
        return Err(TimlgError::RevealClosed);
    }
    if !round.pulse_set {
        return Err(TimlgError::PulseNotSet);
    }
    reveal_one(round, book, k, user, round_id, nonce, guess, salt, current_slot)
}

/// The result of revealing one entry of a batch for `user`.
pub open spec fn reveal_entry(
    round: Round,
    book: Seq<Ticket>,
    user: Seq<u8>,
    round_id: u64,
    e: RevealEntry,
    slot: u64,
) -> Result<(Round, Seq<Ticket>), TimlgError> {
    if e.guess > 1 {
        Err(TimlgError::InvalidGuess)
    } else if !occupied(book, round_id, user, e.nonce) {
        Err(TimlgError::TicketPdaMismatch)
    } else {
        reveal_at(
            round,
            book,
            ticket_index(book, round_id, user, e.nonce),
            user,
            round_id,
            e.nonce,
            e.guess,
            e.salt@,
            slot,
        )
    }
}

/// The result of revealing the entries from position `i` on, one after the
/// other, stopping at the first refusal.
pub open spec fn reveal_entries(
    round: Round,
    book: Seq<Ticket>,
    user: Seq<u8>,
    round_id: u64,
    entries: Seq<RevealEntry>,
    i: int,
    slot: u64,
) -> Result<(Round, Seq<Ticket>), TimlgError>
    decreases entries.len() - i,
{
    if i < 0 || i >= entries.len() {
        Ok((round, book))
    } else {
        match reveal_entry(round, book, user, round_id, entries[i], slot) {
            Err(err) => Err(err),
            Ok((r2, b2)) => reveal_entries(r2, b2, user, round_id, entries, i + 1, slot),
        }
    }
}

/// The result of a batched reveal.
pub open spec fn reveal_batch_result(
    cfg: Config,
    round: Round,
    book: Seq<Ticket>,
    user: Pubkey,
    round_id: u64,
    entries: Seq<RevealEntry>,
    slot: u64,
) -> Result<(Round, Seq<Ticket>), TimlgError> {
    if round.round_id != round_id {
        Err(TimlgError::TicketPdaMismatch)
    } else if cfg.paused {
        Err(TimlgError::Paused)
    } else if entries.len() > MAX_BATCH {
        Err(TimlgError::TooManyEntries)
    } else if round.finalized {
        Err(TimlgError::RoundFinalized)
    } else if !round.pulse_set {
        Err(TimlgError::PulseNotSet)
    } else if slot > round.reveal_deadline_slot {
        Err(TimlgError::RevealClosed)
    } else {
        reveal_entries(round, book, user@, round_id, entries, 0, slot)
    }
}

/// Reveals a batch of one user's tickets in one atomic step: either every
/// entry is revealed and counted, or nothing changes.
#[verifier::loop_isolation(false)]
#[verifier::rlimit(60)]
pub fn reveal_batch(
    cfg: &Config,
    round: &mut Round,
    book: &mut TicketBook,
    user: &Pubkey,
    round_id: u64,
    entries: &Vec<RevealEntry>,
    current_slot: u64,
) -> (r: Result<(), TimlgError>)
    requires
        old(book).wf(),
    ensures
        ledger_consistent(*old(round), old(book)@) ==> ledger_consistent(*final(round), final(book)@),
        old(round).wf() ==> final(round).wf() && round_step(*old(round), *final(round)),
        final(book).wf(),
        match reveal_batch_result(*cfg, *old(round), old(book)@, *user, round_id, entries@, current_slot) {
            Err(e) => r == Err::<(), TimlgError>(e) && *final(round) == *old(round) && final(book)@
                == old(book)@,
            Ok((r2, b2)) => r is Ok && *final(round) == r2 && final(book)@ == b2,
        },
{
    if round.round_id != round_id {
        return Err(TimlgError::TicketPdaMismatch);
    }
    if cfg.paused {
        return Err(TimlgError::Paused);
    }
    if entries.len() > MAX_BATCH {
        return Err(TimlgError::TooManyEntries);
    }
    if round.finalized {
        return Err(TimlgError::RoundFinalized);
    }
    if !round.pulse_set {
        return Err(TimlgError::PulseNotSet);
    }
    if current_slot > round.reveal_deadline_slot {
        return Err(TimlgError::RevealClosed);
    }
    let mut work_round = *round;
    let mut work_book = book.duplicate();
    let mut i: usize = 0;
    while i < entries.len()
        invariant
            i <= entries@.len(),
            work_book.wf(),
            round.wf() ==> work_round.wf() && round_step(*round, work_round),
            work_round.committed_count == round.committed_count,
            work_round.round_id == round.round_id,
            work_round.settled_count == round.settled_count,
            count_pending(work_book@, round.round_id) == count_pending(old(book)@, round.round_id),
            reveal_entries(*old(round), old(book)@, user@, round_id, entries@, 0, current_slot)
                == reveal_entries(work_round, work_book@, user@, round_id, entries@, i as int, current_slot),
        decreases entries@.len() - i,
    {
        let e = entries[i];
        if e.guess > 1 {
            return Err(TimlgError::InvalidGuess);
        }
        let k = match work_book.find(round_id, user, e.nonce) {
            Some(k) => k,
            None => {
                return Err(TimlgError::TicketPdaMismatch);
            },
        };
        let res = reveal_one(&mut work_round, &mut work_book, k, user, round_id, e.nonce, e.guess, e.salt, current_slot);
        if let Err(err) = res {
            return Err(err);
        }
        i = i + 1;
    }
    *round = work_round;
    *book = work_book;
    Ok(())
}

/// The result of revealing one entry of a pre-authorised batch, attested by
/// instruction `idx` of transaction `tx`.
pub open spec fn reveal_signed_entry(
    round: Round,
    book: Seq<Ticket>,
    tx: Seq<Instruction>,
    idx: int,
    program_id: Seq<u8>,
    round_id: u64,
    e: RevealSignedEntry,
    slot: u64,
) -> Result<(Round, Seq<Ticket>), TimlgError> {
    if e.guess > 1 {
        Err(TimlgError::InvalidGuess)
    } else if attestation_error(
        tx,
        idx,
        e.user@,
        reveal_msg(program_id, round_id, e.user@, e.nonce, e.guess, e.salt@),
    ) is Some {
        Err(
            attestation_error(
                tx,
                idx,
                e.user@,
                reveal_msg(program_id, round_id, e.user@, e.nonce, e.guess, e.salt@),
            )->0,
        )
    } else if !occupied(book, round_id, e.user@, e.nonce) {
        Err(TimlgError::TicketPdaMismatch)
    } else {
        reveal_at(
            round,
            book,
            ticket_index(book, round_id, e.user@, e.nonce),
            e.user@,
            round_id,
            e.nonce,
            e.guess,
            e.salt@,
            slot,
        )
    }
}

/// The result of revealing the pre-authorised entries from position `i` on,
/// entry `k` being attested by instruction `first + k`.
pub open spec fn reveal_signed_entries(
    round: Round,
    book: Seq<Ticket>,
    tx: Seq<Instruction>,
    first: int,
    program_id: Seq<u8>,
    round_id: u64,
    entries: Seq<RevealSignedEntry>,
    i: int,
    slot: u64,
) -> Result<(Round, Seq<Ticket>), TimlgError>
    decreases entries.len() - i,
{
    if i < 0 || i >= entries.len() {
        Ok((round, book))
    } else {
        match reveal_signed_entry(round, book, tx, first + i, program_id, round_id, entries[i], slot) {
            Err(err) => Err(err),
            Ok((r2, b2)) => reveal_signed_entries(
                r2,
                b2,
                tx,
                first,
                program_id,
                round_id,
                entries,
                i + 1,
                slot,
            ),
        }
    }
}

/// The result of a pre-authorised batched reveal.
pub open spec fn reveal_batch_signed_result(
    cfg: Config,
    round: Round,
    book: Seq<Ticket>,
    program_id: Pubkey,
    round_id: u64,
    entries: Seq<RevealSignedEntry>,
    tx: Seq<Instruction>,
    current_ix: usize,
    slot: u64,
) -> Result<(Round, Seq<Ticket>), TimlgError> {
    let n = entries.len();
    if cfg.paused {
        Err(TimlgError::Paused)
    } else if n > MAX_BATCH {
        Err(TimlgError::TooManyEntries)
    } else if round.finalized {
        Err(TimlgError::RoundFinalized)
    } else if round.round_id != round_id {
        Err(TimlgError::TicketPdaMismatch)
    } else if slot > round.reveal_deadline_slot {
        Err(TimlgError::RevealClosed)
    } else if !round.pulse_set {
        Err(TimlgError::PulseNotSet)
    } else if exists|i: int| 0 <= i < n && (#[trigger] entries[i]).user@ != entries[0].user@ {
        Err(TimlgError::SignedBatchMixedUsers)
    } else if current_ix < n {
        Err(TimlgError::MissingOrInvalidEd25519Ix)
    } else {
        reveal_signed_entries(round, book, tx, current_ix - n, program_id@, round_id, entries, 0, slot)
    }
}

/// Reveals a batch that a relayer submits for one user, each entry
/// authorised by the user's signature, attested by the `n` instructions
/// that immediately precede instruction `current_ix` of transaction `tx`.
/// Either every entry is revealed and counted, or nothing changes.
#[verifier::loop_isolation(false)]
#[verifier::rlimit(90)]
pub fn reveal_batch_signed(
    cfg: &Config,
    round: &mut Round,
    book: &mut TicketBook,
    program_id: &Pubkey,
    round_id: u64,
    entries: &Vec<RevealSignedEntry>,
    tx: &Vec<Instruction>,
    current_ix: usize,
    current_slot: u64,
) -> (r: Result<(), TimlgError>)
    requires
        old(book).wf(),
    ensures
        ledger_consistent(*old(round), old(book)@) ==> ledger_consistent(*final(round), final(book)@),
        old(round).wf() ==> final(round).wf() && round_step(*old(round), *final(round)),
        final(book).wf(),
        match reveal_batch_signed_result(
            *cfg,
            *old(round),
            old(book)@,
            *program_id,
            round_id,
            entries@,
            tx@,
            current_ix,
            current_slot,
        ) {
            Err(e) => r == Err::<(), TimlgError>(e) && *final(round) == *old(round) && final(book)@
                == old(book)@,
            Ok((r2, b2)) => r is Ok && *final(round) == r2 && final(book)@ == b2,
        },
{
    if cfg.paused {
        return Err(TimlgError::Paused);
    }
    let n = entries.len();
    if n > MAX_BATCH {
        return Err(TimlgError::TooManyEntries);
    }
    if round.finalized {
        return Err(TimlgError::RoundFinalized);
    }
    if round.round_id != round_id {
        return Err(TimlgError::TicketPdaMismatch);
    }
    if current_slot > round.reveal_deadline_slot {
        return Err(TimlgError::RevealClosed);
    }
    if !round.pulse_set {
        return Err(TimlgError::PulseNotSet);
    }
    if n > 0 {
        let first_user = entries[0].user;
        let mut i: usize = 0;
        while i < n
            invariant
                i <= n,
                n == entries@.len(),
                first_user == entries@[0].user,
                forall|k: int| 0 <= k < i ==> (#[trigger] entries@[k]).user@ == entries@[0].user@,
            decreases n - i,
        {
            if !(entries[i].user == first_user) {
                assert((entries@[i as int]).user@ != entries@[0].user@);
                return Err(TimlgError::SignedBatchMixedUsers);
            }
            i = i + 1;
        }
    }
    if current_ix < n {
        return Err(TimlgError::MissingOrInvalidEd25519Ix);
    }
    let first = current_ix - n;
    let mut work_round = *round;
    let mut work_book = book.duplicate();
    let mut i: usize = 0;
    while i < n
        invariant
            i <= n,
            n == entries@.len(),
            first == current_ix - n,
            work_book.wf(),
            round.wf() ==> work_round.wf() && round_step(*round, work_round),
            work_round.committed_count == round.committed_count,
            work_round.round_id == round.round_id,
            work_round.settled_count == round.settled_count,
            count_pending(work_book@, round.round_id) == count_pending(old(book)@, round.round_id),
            reveal_signed_entries(
                *old(round),
                old(book)@,
                tx@,
                first as int,
                program_id@,
                round_id,
                entries@,
                0,
                current_slot,
            ) == reveal_signed_entries(
                work_round,
                work_book@,
                tx@,
                first as int,
                program_id@,
                round_id,
                entries@,
                i as int,
                current_slot,
            ),
        decreases n - i,
    {
        let e = entries[i];
        if e.guess > 1 {
            return Err(TimlgError::InvalidGuess);
        }
        let msg = expected_reveal_msg(program_id, round_id, &e.user, e.nonce, e.guess, &e.salt);
        let checked = check_attestation(tx, first + i, &e.user, msg.as_slice());
        if let Err(err) = checked {
            return Err(err);
        }
        let k = match work_book.find(round_id, &e.user, e.nonce) {
            Some(k) => k,
            None => {
                return Err(TimlgError::TicketPdaMismatch);
            },
        };
        let res = reveal_one(&mut work_round, &mut work_book, k, &e.user, round_id, e.nonce, e.guess, e.salt, current_slot);
        if let Err(err) = res {
            return Err(err);
        }
        i = i + 1;
    }
    *round = work_round;
    *book = work_book;
    Ok(())
}

} // verus!
