//! Laws of the protocol that relate several operations or hold of every
//! state they pass through.
use vstd::prelude::*;

use crate::book::{lemma_count_zero, ledger_consistent, occupied, pending, ticket_index};
use crate::codec::{bit_index_of, pulse_bit};
use crate::commit::{batch_replayed, commit_batch_error, entry_nonces, new_ticket};
use crate::ed25519::Instruction;
use crate::lifecycle::{finalize_error, refund_error, settle_keys, settle_result, TicketKey};
use crate::oracle::set_pulse_error;
use crate::pubkey::Pubkey;
use crate::reveals::{reveal_core_error, revealed_ticket};
use crate::reward::{claim_allowed, claim_error};
use crate::state::{phase_rank, round_step, CommitEntry, Config, Round, Ticket, Tokenomics};
use crate::error::TimlgError;

verus! {

/// A committed ticket's bit index is the one derived from its key, so the
/// reveal's re-derivation from the same key never disagrees with it; and the
/// reveal wins exactly when that bit of the pulse equals the guess.
pub proof fn lemma_bit_index_stable(
    round: Round,
    round_id: u64,
    user: Pubkey,
    nonce: u64,
    commitment: [u8; 32],
    created: u64,
    guess: u8,
    salt: [u8; 32],
    revealed: u64,
)
    ensures
        new_ticket(round_id, user, nonce, commitment, created).bit_index == bit_index_of(
            round_id,
            user@,
            nonce,
        ),
        reveal_core_error(
            new_ticket(round_id, user, nonce, commitment, created),
            user@,
            round_id,
            nonce,
            guess,
            salt@,
        ) != Some(TimlgError::BitIndexMismatch),
        revealed_ticket(round, new_ticket(round_id, user, nonce, commitment, created), guess, revealed).win
            == (pulse_bit(round.pulse@, bit_index_of(round_id, user@, nonce) as int) == guess),
{
}

/// Round transitions compose: a run of operations never moves a round's
/// phase backwards, never changes a published pulse, and never undoes
/// finalization, sweeping or settlement.
pub proof fn lemma_round_steps_compose(r0: Round, r1: Round, r2: Round)
    requires
        round_step(r0, r1),
        round_step(r1, r2),
    ensures
        round_step(r0, r2),
        phase_rank(r0.state) <= phase_rank(r2.state),
{
}

/// A well-formed finalized round has its pulse.
pub proof fn lemma_finalized_has_pulse(r: Round)
    requires
        r.wf(),
        r.finalized,
    ensures
        r.pulse_set,
{
}

/// A pulse is published at most once: once set, every further attempt is
/// refused.
pub proof fn lemma_pulse_set_once(
    cfg: Config,
    round: Round,
    program_id: Pubkey,
    round_id: u64,
    pulse: Seq<u8>,
    tx: Seq<Instruction>,
    current_ix: usize,
    slot: u64,
)
    requires
        round.pulse_set,
    ensures
        set_pulse_error(cfg, round, program_id, round_id, pulse, tx, current_ix, slot) is Some,
{
}

/// Neither finalization nor settlement can finalize a round before its
/// pulse exists.
pub proof fn lemma_no_finalize_without_pulse(
    cfg: Config,
    round: Round,
    book: Seq<Ticket>,
    admin: Pubkey,
    round_id: u64,
    keys: Seq<TicketKey>,
    slot: u64,
)
    requires
        round.wf(),
        !round.pulse_set,
    ensures
        finalize_error(cfg, round, admin, round_id, slot) is Some,
        settle_result(cfg, round, book, round_id, keys, slot) is Err,
{
}

/// Once every ticket of a round on the ledger has been classified, the
/// settled count equals the committed count.
pub proof fn lemma_full_settlement(round: Round, book: Seq<Ticket>)
    requires
        ledger_consistent(round, book),
        forall|i: int| 0 <= i < book.len() && (#[trigger] book[i]).round_id == round.round_id
            ==> book[i].processed,
    ensures
        round.settled_count == round.committed_count,
{
    assert forall|i: int| 0 <= i < book.len() implies !pending(#[trigger] book[i], round.round_id) by {
    }
    lemma_count_zero(book, round.round_id);
}

/// Whether `key` names a ticket of round `round_id` that paid its stake and
/// has already been classified.
pub open spec fn already_classified(book: Seq<Ticket>, round_id: u64, key: TicketKey) -> bool {
    &&& occupied(book, key.round_id, key.user@, key.nonce)
    &&& book[ticket_index(book, key.round_id, key.user@, key.nonce)].round_id == round_id
    &&& book[ticket_index(book, key.round_id, key.user@, key.nonce)].stake_paid
    &&& book[ticket_index(book, key.round_id, key.user@, key.nonce)].processed
}

/// Settlement classifies each ticket once: over tickets that are already
/// classified it changes nothing, burns nothing and counts nothing.
pub proof fn lemma_settle_skips_classified(
    book: Seq<Ticket>,
    round_id: u64,
    keys: Seq<TicketKey>,
    i: int,
    settled: u64,
    losers: u64,
)
    requires
        0 <= i,
        forall|j: int| 0 <= j < keys.len() ==> already_classified(book, round_id, #[trigger] keys[j]),
    ensures
        settle_keys(book, round_id, keys, i, settled, losers) == Ok::<
            (Seq<Ticket>, u64, u64),
            TimlgError,
        >((book, settled, losers)),
    decreases keys.len() - i,
{
    if i < keys.len() {
        assert(already_classified(book, round_id, keys[i]));
        lemma_settle_skips_classified(book, round_id, keys, i + 1, settled, losers);
    }
}

/// A ticket that has been claimed can never be claimed again.
pub proof fn lemma_second_claim_fails(
    cfg: Config,
    round: Round,
    tokenomics: Tokenomics,
    book: Seq<Ticket>,
    user: Pubkey,
    round_id: u64,
    nonce: u64,
)
    requires
        occupied(book, round_id, user@, nonce),
        book[ticket_index(book, round_id, user@, nonce)].claimed,
    ensures
        claim_error(cfg, round, tokenomics, book, user, round_id, nonce) is Some,
        !claim_allowed(round, book[ticket_index(book, round_id, user@, nonce)]),
{
}

/// Once a pulse is published, a round can never be refunded, whatever
/// happens to it afterwards and whether or not it is ever finalized.
pub proof fn lemma_refund_closed_after_pulse(
    cfg: Config,
    r0: Round,
    r1: Round,
    book: Seq<Ticket>,
    user: Pubkey,
    round_id: u64,
    nonce: u64,
    slot: u64,
    check_pause: bool,
)
    requires
        r0.pulse_set,
        round_step(r0, r1),
    ensures
        refund_error(cfg, r1, book, user, round_id, nonce, slot, check_pause) is Some,
{
}

/// A batch in which some entry replays an existing or earlier key is refused
/// as a whole.
pub proof fn lemma_batch_replay_aborts(
    cfg: Config,
    round: Round,
    book: Seq<Ticket>,
    user: Pubkey,
    round_id: u64,
    entries: Seq<CommitEntry>,
    slot: u64,
)
    requires
        batch_replayed(book, round_id, user@, entry_nonces(entries)),
    ensures
        commit_batch_error(cfg, round, book, user, round_id, entries, slot) is Some,
{
}

} // verus!
