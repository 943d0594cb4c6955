//! Round lifecycle after the commit phase: finalization, settlement, sweep,
//! closing, refunds and ticket closing.
use vstd::prelude::*;

use crate::book::{
    count_pending, lemma_count_remove, lemma_count_update, ledger_consistent, occupied,
    ticket_index, TicketBook,
};
use crate::constants::REFUND_TIMEOUT_SLOTS;
use crate::error::TimlgError;
use crate::pubkey::Pubkey;
use crate::state::{round_step, Config, Round, RoundState, Ticket};

verus! {

/// The key `(round_id, user, nonce)` of a ticket, as a caller supplies it.
#[derive(Clone, Copy, Debug)]
pub struct TicketKey {
    pub round_id: u64,
    pub user: Pubkey,
    pub nonce: u64,
}

/// The round once finalized at `slot`.
pub open spec fn finalized_at(round: Round, slot: u64) -> Round {
    Round { finalized: true, finalized_slot: slot, state: RoundState::Finalized, ..round }
}

/// Why finalizing is refused, if it is.
pub open spec fn finalize_error(
    cfg: Config,
    round: Round,
    admin: Pubkey,
    round_id: u64,
    slot: u64,
) -> Option<TimlgError> {
    if cfg.paused {
        Some(TimlgError::Paused)
    } else if cfg.admin@ != admin@ {
        Some(TimlgError::Unauthorized)
    } else if round.round_id != round_id {
        Some(TimlgError::TicketPdaMismatch)
    } else if round.finalized {
        Some(TimlgError::AlreadyFinalized)
    } else if !round.pulse_set {
        Some(TimlgError::PulseNotSet)
    } else if slot <= round.reveal_deadline_slot {
        Some(TimlgError::CannotFinalizeYet)
    } else {
        None
    }
}

/// Finalizes a round whose pulse is published once its reveal window has
/// closed. Only the administrator may do so, and only once.
pub fn finalize_round(cfg: &Config, round: &mut Round, admin: &Pubkey, round_id: u64, current_slot: u64) -> (r: Result<(), TimlgError>)
    ensures
        old(round).wf() ==> final(round).wf() && round_step(*old(round), *final(round)),
        match finalize_error(*cfg, *old(round), *admin, round_id, current_slot) {
            Some(e) => r == Err::<(), TimlgError>(e) && *final(round) == *old(round),
            None => r is Ok && *final(round) == finalized_at(*old(round), current_slot),
        },
{
    if cfg.paused {
        return Err(TimlgError::Paused);
    }
    if !(cfg.admin == *admin) {
        return Err(TimlgError::Unauthorized);
    }
    if round.round_id != round_id {
        return Err(TimlgError::TicketPdaMismatch);
    }
    if round.finalized {
        return Err(TimlgError::AlreadyFinalized);
    }
    if !round.pulse_set {
        return Err(TimlgError::PulseNotSet);
    }
    if current_slot <= round.reveal_deadline_slot {
        return Err(TimlgError::CannotFinalizeYet);
    }
    round.finalized = true;
    round.finalized_slot = current_slot;
    round.state = RoundState::Finalized;
    Ok(())
}

/// The ticket once classified by settlement: a ticket that was not revealed
/// or did not win loses its stake.
pub open spec fn classified(t: Ticket) -> Ticket {
    Ticket {
        processed: true,
        stake_slashed: if !t.revealed || !t.win {
            true
        } else {
            t.stake_slashed
        },
        ..t
    }
}

/// Whether settlement classifies `t` as a loser.
pub open spec fn is_loser(t: Ticket) -> bool {
    !t.revealed || !t.win
}

/// Settlement's view of the supplied tickets from position `i` on, given
/// the ledger, the settled count and the losers found so far: the ledger
/// after classifying them, the new settled count and the number of losers,
/// or the first refusal.
pub open spec fn settle_keys(
    book: Seq<Ticket>,
    round_id: u64,
    keys: Seq<TicketKey>,
    i: int,
    settled: u64,
    losers: u64,
) -> Result<(Seq<Ticket>, u64, u64), TimlgError>
    decreases keys.len() - i,
{
    if i < 0 || i >= keys.len() {
        Ok((book, settled, losers))
    } else {
        let key = keys[i];
        if !occupied(book, key.round_id, key.user@, key.nonce) {
            Err(TimlgError::TicketNotOwnedByProgram)
        } else {
            let k = ticket_index(book, key.round_id, key.user@, key.nonce);
            let t = book[k];
            if t.round_id != round_id {
                Err(TimlgError::TicketPdaMismatch)
            } else if !t.stake_paid {
                Err(TimlgError::StakeNotPaid)
            } else if t.processed {
                settle_keys(book, round_id, keys, i + 1, settled, losers)
            } else if is_loser(t) && losers == u64::MAX {
                Err(TimlgError::MathOverflow)
            } else if settled == u64::MAX {
                Err(TimlgError::MathOverflow)
            } else {
                settle_keys(
                    book.update(k, classified(t)),
                    round_id,
                    keys,
                    i + 1,
                    (settled + 1) as u64,
                    if is_loser(t) {
                        (losers + 1) as u64
                    } else {
                        losers
                    },
                )
            }
        }
    }
}

/// The round before its tickets are scanned: finalized, automatically when
/// the administrator has not done so yet.
pub open spec fn settle_base(round: Round, slot: u64) -> Round {
    if round.finalized {
        round
    } else {
        finalized_at(round, slot)
    }
}

/// The round after a settlement pass that brought the settled count to
/// `settled`: fully settled once every committed ticket is classified.
pub open spec fn settled_round(round: Round, settled: u64, slot: u64) -> Round {
    let base = settle_base(round, slot);
    if settled == base.committed_count {
        Round { settled_count: settled, token_settled: true, token_settled_slot: slot, ..base }
    } else {
        Round { settled_count: settled, ..base }
    }
}

/// The result of a settlement pass: the round, the ledger and the amount to
/// burn from the round's token vault.
pub open spec fn settle_result(
    cfg: Config,
    round: Round,
    book: Seq<Ticket>,
    round_id: u64,
    keys: Seq<TicketKey>,
    slot: u64,
) -> Result<(Round, Seq<Ticket>, u64), TimlgError> {
    if cfg.paused {
        Err(TimlgError::Paused)
    } else if round.round_id != round_id {
        Err(TimlgError::TicketPdaMismatch)
    } else if slot <= round.reveal_deadline_slot {
        Err(TimlgError::SettleTooEarly)
    } else if !round.finalized && !round.pulse_set {
        Err(TimlgError::PulseNotSet)
    } else if round.token_settled {
        Err(TimlgError::RoundTokensAlreadySettled)
    } else {
        match settle_keys(book, round_id, keys, 0, round.settled_count, 0) {
            Err(e) => Err(e),
            Ok((b2, settled, losers)) => if cfg.stake_amount * losers > u64::MAX {
                Err(TimlgError::MathOverflow)
            } else {
                Ok(
                    (
                        settled_round(round, settled, slot),
                        b2,
                        (cfg.stake_amount * losers) as u64,
                    ),
                )
            },
        }
    }
}

/// Settles the supplied tickets of a round whose reveal window has closed,
/// finalizing the round first when needed. Each ticket not yet classified
/// is classified exactly once: a ticket that was not revealed or did not win
/// is a loser, whose stake is burned; a winner's stake stays for its claim.
/// Tickets already classified are skipped, so passes over any subsets may be
/// repeated. Returns the amount to burn from the round's token vault; the
/// round is fully settled once every committed ticket is classified. A
/// refused pass changes nothing.
#[verifier::loop_isolation(false)]
pub fn settle_round_tokens(
    cfg: &Config,
    round: &mut Round,
    book: &mut TicketBook,
    round_id: u64,
    keys: &Vec<TicketKey>,
    current_slot: u64,
) -> (r: Result<u64, TimlgError>)
    requires
        old(book).wf(),
    ensures
        old(round).wf() ==> round_step(*old(round), *final(round)),
        old(round).wf() && ledger_consistent(*old(round), old(book)@) ==> final(round).wf(),
        final(book).wf(),
        match settle_result(*cfg, *old(round), old(book)@, round_id, keys@, current_slot) {
            Err(e) => r == Err::<u64, TimlgError>(e) && *final(round) == *old(round) && final(book)@
                == old(book)@,
            Ok((r2, b2, burn)) => r == Ok::<u64, TimlgError>(burn) && *final(round) == r2
                && final(book)@ == b2,
        },
        r is Ok && ledger_consistent(*old(round), old(book)@) ==> ledger_consistent(
            *final(round),
            final(book)@,
        ),
{
    if cfg.paused {
        return Err(TimlgError::Paused);
    }
    if round.round_id != round_id {
        return Err(TimlgError::TicketPdaMismatch);
    }
    if current_slot <= round.reveal_deadline_slot {
        return Err(TimlgError::SettleTooEarly);
    }
    if !round.finalized && !round.pulse_set {
        return Err(TimlgError::PulseNotSet);
    }
    if round.token_settled {
        return Err(TimlgError::RoundTokensAlreadySettled);
    }
    let mut work = book.duplicate();
    let mut settled: u64 = round.settled_count;
    let mut losers: u64 = 0;
    let mut i: usize = 0;
    while i < keys.len()
        invariant
            i <= keys@.len(),
            work.wf(),
            settle_keys(old(book)@, round_id, keys@, 0, round.settled_count, 0) == settle_keys(
                work@,
                round_id,
                keys@,
                i as int,
                settled,
                losers,
            ),
            count_pending(work@, round_id) + settled == count_pending(old(book)@, round_id)
                + round.settled_count,
        decreases keys@.len() - i,
    {
        let key = keys[i];
        let k = match work.find(key.round_id, &key.user, key.nonce) {
            Some(k) => k,
            None => {
                return Err(TimlgError::TicketNotOwnedByProgram);
            },
        };
        let t = work.ticket_at(k);
        if t.round_id != round_id {
            return Err(TimlgError::TicketPdaMismatch);
        }
        if !t.stake_paid {
            return Err(TimlgError::StakeNotPaid);
        }
        if !t.processed {
            let loser = !t.revealed || !t.win;
            if loser {
                if losers == u64::MAX {
                    return Err(TimlgError::MathOverflow);
                }
            }
            if settled == u64::MAX {
                return Err(TimlgError::MathOverflow);
            }
            let mut t2 = t;
            if loser {
                t2.stake_slashed = true;
                losers = losers + 1;
            }
            t2.processed = true;
            proof {
                lemma_count_update(work@, k as int, t2, round_id);
            }
            work.replace(k, t2);
            settled = settled + 1;
        }
        i = i + 1;
    }
    let burn = match cfg.stake_amount.checked_mul(losers) {
        Some(b) => b,
        None => {
            return Err(TimlgError::MathOverflow);
        },
    };
    if !round.finalized {
        round.finalized = true;
        round.finalized_slot = current_slot;
        round.state = RoundState::Finalized;
    }
    round.settled_count = settled;
    if round.settled_count == round.committed_count {
        round.token_settled = true;
        round.token_settled_slot = current_slot;
    }
    *book = work;
    Ok(burn)
}

/// What a sweep moves to the treasury: the whole residual balance of the
/// round's native-currency vault and of its token vault.
#[derive(Clone, Copy, Debug, PartialEq, Eq, Structural)]
pub struct SweepPayout {
    pub lamports: u64,
    pub tokens: u64,
}

/// Why a sweep is refused, if it is.
pub open spec fn sweep_error(
    cfg: Config,
    round: Round,
    admin: Pubkey,
    round_id: u64,
    slot: u64,
) -> Option<TimlgError> {
    if cfg.paused {
        Some(TimlgError::Paused)
    } else if cfg.admin@ != admin@ {
        Some(TimlgError::Unauthorized)
    } else if round.round_id != round_id {
        Some(TimlgError::TicketPdaMismatch)
    } else if !round.finalized && round.committed_count != 0 {
        Some(TimlgError::NotFinalized)
    } else if round.swept {
        Some(TimlgError::AlreadySwept)
    } else if slot <= round.reveal_deadline_slot + cfg.claim_grace_slots {
        Some(TimlgError::SweepTooEarly)
    } else {
        None
    }
}

/// Sweeps a finalized (or never committed to) round once its claim grace
/// period is over: everything left in its vaults goes to the treasury, and
/// no claim is possible afterwards. Only the administrator may sweep, once.
pub fn sweep_unclaimed(
    cfg: &Config,
    round: &mut Round,
    admin: &Pubkey,
    round_id: u64,
    vault_lamports: u64,
    vault_tokens: u64,
    current_slot: u64,
) -> (r: Result<SweepPayout, TimlgError>)
    ensures
        old(round).wf() ==> final(round).wf() && round_step(*old(round), *final(round)),
        match sweep_error(*cfg, *old(round), *admin, round_id, current_slot) {
            Some(e) => r == Err::<SweepPayout, TimlgError>(e) && *final(round) == *old(round),
            None => r == Ok::<SweepPayout, TimlgError>(
                SweepPayout { lamports: vault_lamports, tokens: vault_tokens },
            ) && *final(round) == (Round { swept: true, swept_slot: current_slot, ..*old(round) }),
        },
{
    if cfg.paused {
        return Err(TimlgError::Paused);
    }
    if !(cfg.admin == *admin) {
        return Err(TimlgError::Unauthorized);
    }
    if round.round_id != round_id {
        return Err(TimlgError::TicketPdaMismatch);
    }
    if !round.finalized && round.committed_count != 0 {
        return Err(TimlgError::NotFinalized);
    }
    if round.swept {
        return Err(TimlgError::AlreadySwept);
    }
    let min_sweep_slot = round.reveal_deadline_slot.saturating_add(cfg.claim_grace_slots);
    if current_slot <= min_sweep_slot {
        return Err(TimlgError::SweepTooEarly);
    }
    round.swept = true;
    round.swept_slot = current_slot;
    Ok(SweepPayout { lamports: vault_lamports, tokens: vault_tokens })
}

/// Why closing a round is refused, if it is.
pub open spec fn close_round_error(
    cfg: Config,
    round: Round,
    admin: Pubkey,
    round_id: u64,
    vault_tokens: u64,
) -> Option<TimlgError> {
    if cfg.paused {
        Some(TimlgError::Paused)
    } else if cfg.admin@ != admin@ {
        Some(TimlgError::Unauthorized)
    } else if round.round_id != round_id {
        Some(TimlgError::TicketPdaMismatch)
    } else if !round.finalized {
        Some(TimlgError::NotFinalized)
    } else if !round.token_settled && round.committed_count != 0 {
        Some(TimlgError::RoundTokensNotSettled)
    } else if !round.swept {
        Some(TimlgError::NotSwept)
    } else if vault_tokens != 0 {
        Some(TimlgError::VaultNotEmpty)
    } else {
        None
    }
}

/// Decides whether a round may be closed: it must be finalized, settled (if
/// it had any commitment), swept, and its token vault empty.
pub fn close_round(cfg: &Config, round: &Round, admin: &Pubkey, round_id: u64, vault_tokens: u64) -> (r: Result<(), TimlgError>)
    ensures
        match close_round_error(*cfg, *round, *admin, round_id, vault_tokens) {
            Some(e) => r == Err::<(), TimlgError>(e),
            None => r is Ok,
        },
{
    if cfg.paused {
        return Err(TimlgError::Paused);
    }
    if !(cfg.admin == *admin) {
        return Err(TimlgError::Unauthorized);
    }
    if round.round_id != round_id {
        return Err(TimlgError::TicketPdaMismatch);
    }
    if !round.finalized {
        return Err(TimlgError::NotFinalized);
    }
    if !round.token_settled && round.committed_count != 0 {
        return Err(TimlgError::RoundTokensNotSettled);
    }
    if !round.swept {
        return Err(TimlgError::NotSwept);
    }
    if vault_tokens != 0 {
        return Err(TimlgError::VaultNotEmpty);
    }
    Ok(())
}

/// Whether the refund window of a round is open at `slot`: no pulse was
/// ever published and the refund timeout after the reveal deadline is over.
pub open spec fn refund_open(round: Round, slot: u64) -> bool {
    !round.finalized && !round.pulse_set && slot > round.reveal_deadline_slot + REFUND_TIMEOUT_SLOTS
}

/// Why a refund is refused, if it is; `check_pause` tells whether the
/// pause flag applies.
pub open spec fn refund_error(
    cfg: Config,
    round: Round,
    book: Seq<Ticket>,
    user: Pubkey,
    round_id: u64,
    nonce: u64,
    slot: u64,
    check_pause: bool,
) -> Option<TimlgError> {
    if round.round_id != round_id || !occupied(book, round_id, user@, nonce) {
        Some(TimlgError::TicketPdaMismatch)
    } else if check_pause && cfg.paused {
        Some(TimlgError::Paused)
    } else if round.finalized {
        Some(TimlgError::AlreadyFinalized)
    } else if slot <= round.reveal_deadline_slot + REFUND_TIMEOUT_SLOTS {
        Some(TimlgError::RefundTooEarly)
    } else if round.pulse_set {
        Some(TimlgError::PulseAlreadySet)
    } else if book[ticket_index(book, round_id, user@, nonce)].processed {
        Some(TimlgError::TicketAlreadyProcessed)
    } else {
        None
    }
}

/// The round once one ticket has been refunded.
pub open spec fn uncommitted(round: Round) -> Round {
    Round {
        committed_count: if round.committed_count > 0 {
            (round.committed_count - 1) as u64
        } else {
            0
        },
        ..round
    }
}

#[verifier::loop_isolation(false)]
fn refund(
    cfg: &Config,
    round: &mut Round,
    book: &mut TicketBook,
    user: &Pubkey,
    round_id: u64,
    nonce: u64,
    current_slot: u64,
    check_pause: bool,
) -> (r: Result<u64, TimlgError>)
    requires
        old(book).wf(),
    ensures
        old(round).wf() ==> final(round).wf() && round_step(*old(round), *final(round)),
        final(book).wf(),
        match refund_error(*cfg, *old(round), old(book)@, *user, round_id, nonce, current_slot, check_pause) {
            Some(e) => r == Err::<u64, TimlgError>(e) && *final(round) == *old(round) && final(book)@
                == old(book)@,
            None => r == Ok::<u64, TimlgError>(cfg.stake_amount) && *final(round) == uncommitted(
                *old(round),
            ) && final(book)@ == old(book)@.remove(
                ticket_index(old(book)@, round_id, user@, nonce),
            ),
        },
        r is Ok && ledger_consistent(*old(round), old(book)@) ==> ledger_consistent(
            *final(round),
            final(book)@,
        ),
{
    if round.round_id != round_id {
        return Err(TimlgError::TicketPdaMismatch);
    }
    let k = match book.find(round_id, user, nonce) {
        Some(k) => k,
        None => {
            return Err(TimlgError::TicketPdaMismatch);
        },
    };
    if check_pause && cfg.paused {
        return Err(TimlgError::Paused);
    }
    if round.finalized {
        return Err(TimlgError::AlreadyFinalized);
    }
    let deadline = round.reveal_deadline_slot.saturating_add(REFUND_TIMEOUT_SLOTS);
    if current_slot <= deadline {
        return Err(TimlgError::RefundTooEarly);
    }
    if round.pulse_set {
        return Err(TimlgError::PulseAlreadySet);
    }
    let t = book.ticket_at(k);
    if t.processed {
        return Err(TimlgError::TicketAlreadyProcessed);
    }
    proof {
        lemma_count_remove(book@, k as int, round_id);
    }
    book.remove_at(k);
    if round.committed_count > 0 {
        round.committed_count = round.committed_count - 1;
    }
    Ok(cfg.stake_amount)
}

/// Refunds a ticket's owner when the round is stuck: no pulse was ever
/// published and the refund timeout after the reveal deadline is over. The
/// ticket is closed and un-counted; returns the stake to move from the
/// round's token vault back to the user. Once a pulse is published, refunds
/// are refused for good.
pub fn recover_funds(
    cfg: &Config,
    round: &mut Round,
    book: &mut TicketBook,
    user: &Pubkey,
    round_id: u64,
    nonce: u64,
    current_slot: u64,
) -> (r: Result<u64, TimlgError>)
    requires
        old(book).wf(),
    ensures
        old(round).wf() ==> final(round).wf() && round_step(*old(round), *final(round)),
        final(book).wf(),
        match refund_error(*cfg, *old(round), old(book)@, *user, round_id, nonce, current_slot, true) {
            Some(e) => r == Err::<u64, TimlgError>(e) && *final(round) == *old(round) && final(book)@
                == old(book)@,
            None => r == Ok::<u64, TimlgError>(cfg.stake_amount) && *final(round) == uncommitted(
                *old(round),
            ) && final(book)@ == old(book)@.remove(
                ticket_index(old(book)@, round_id, user@, nonce),
            ),
        },
        r is Ok ==> refund_open(*old(round), current_slot),
        r is Ok && ledger_consistent(*old(round), old(book)@) ==> ledger_consistent(
            *final(round),
            final(book)@,
        ),
{
    refund(cfg, round, book, user, round_id, nonce, current_slot, true)
}

/// The same refund as [`recover_funds`], which anyone may trigger on the
/// owner's behalf, whether or not the protocol is paused.
pub fn recover_funds_anyone(
    cfg: &Config,
    round: &mut Round,
    book: &mut TicketBook,
    user: &Pubkey,
    round_id: u64,
    nonce: u64,
    current_slot: u64,
) -> (r: Result<u64, TimlgError>)
    requires
        old(book).wf(),
    ensures
        old(round).wf() ==> final(round).wf() && round_step(*old(round), *final(round)),
        final(book).wf(),
        match refund_error(*cfg, *old(round), old(book)@, *user, round_id, nonce, current_slot, false) {
            Some(e) => r == Err::<u64, TimlgError>(e) && *final(round) == *old(round) && final(book)@
                == old(book)@,
            None => r == Ok::<u64, TimlgError>(cfg.stake_amount) && *final(round) == uncommitted(
                *old(round),
            ) && final(book)@ == old(book)@.remove(
                ticket_index(old(book)@, round_id, user@, nonce),
            ),
        },
        r is Ok ==> refund_open(*old(round), current_slot),
        r is Ok && ledger_consistent(*old(round), old(book)@) ==> ledger_consistent(
            *final(round),
            final(book)@,
        ),
{
    refund(cfg, round, book, user, round_id, nonce, current_slot, false)
}

/// Why closing a ticket is refused, if it is. While its round is alive, a
/// ticket closes only once settled, and a winner only once it has claimed.
pub open spec fn close_ticket_error(
    cfg: Config,
    book: Seq<Ticket>,
    user: Pubkey,
    round_id: u64,
    nonce: u64,
    round_alive: bool,
) -> Option<TimlgError> {
    if !occupied(book, round_id, user@, nonce) {
        Some(TimlgError::TicketPdaMismatch)
    } else if cfg.paused {
        Some(TimlgError::Paused)
    } else {
        let t = book[ticket_index(book, round_id, user@, nonce)];
        if round_alive && !t.processed {
            Some(TimlgError::TicketNotProcessed)
        } else if round_alive && t.win && !t.claimed {
            Some(TimlgError::WinnerMustClaimFirst)
        } else {
            None
        }
    }
}

/// Closes a resolved ticket, or any ticket of a round that no longer exists.
pub fn close_ticket(
    cfg: &Config,
    book: &mut TicketBook,
    user: &Pubkey,
    round_id: u64,
    nonce: u64,
    round_alive: bool,
) -> (r: Result<(), TimlgError>)
    requires
        old(book).wf(),
    ensures
        final(book).wf(),
        match close_ticket_error(*cfg, old(book)@, *user, round_id, nonce, round_alive) {
            Some(e) => r == Err::<(), TimlgError>(e) && final(book)@ == old(book)@,
            None => r is Ok && final(book)@ == old(book)@.remove(
                ticket_index(old(book)@, round_id, user@, nonce),
            ),
        },
        r is Ok && round_alive ==> forall|rid: u64|
            count_pending(#[trigger] final(book)@, rid) == count_pending(old(book)@, rid),
{
    let k = match book.find(round_id, user, nonce) {
        Some(k) => k,
        None => {
            return Err(TimlgError::TicketPdaMismatch);
        },
    };
    if cfg.paused {
        return Err(TimlgError::Paused);
    }
    let t = book.ticket_at(k);
    if round_alive {
        if !t.processed {
            return Err(TimlgError::TicketNotProcessed);
        }
        if t.win && !t.claimed {
            return Err(TimlgError::WinnerMustClaimFirst);
        }
    }
    let ghost before = book@;
    book.remove_at(k);
    proof {
        if round_alive {
            assert forall|rid: u64| count_pending(book@, rid) == count_pending(before, rid) by {
                lemma_count_remove(before, k as int, rid);
            }
        }
    }
    Ok(())
}

} // verus!
