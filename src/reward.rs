//! Claims: a winner takes back its stake plus a minted reward, of which a
//! fee goes to the fee pool.
use vstd::prelude::*;

use crate::book::{count_pending, lemma_count_update, occupied, ticket_index, TicketBook};
use crate::constants::BPS_DENOMINATOR;
use crate::error::TimlgError;
use crate::pubkey::Pubkey;
use crate::state::{Config, Round, Ticket, Tokenomics};

verus! {

/// What a claim pays out.
#[derive(Clone, Copy, Debug, PartialEq, Eq, Structural)]
pub struct ClaimPayout {
    /// Stake moved from the round's token vault back to the user.
    pub stake_return: u64,
    /// Reward minted to the user.
    pub user_reward: u64,
    /// Reward minted to the fee pool.
    pub fee: u64,
}

/// The fee taken on a reward of `amount` at `bps` basis points.
pub open spec fn fee_of(amount: u64, bps: u16) -> int {
    (amount * bps) / (BPS_DENOMINATOR as int)
}

/// Whether ticket `t` of `round` may be claimed: the round is settled and
/// not swept, and the ticket paid its stake, was revealed, won, and has not
/// been claimed.
pub open spec fn claim_allowed(round: Round, t: Ticket) -> bool {
    round.token_settled && !round.swept && t.stake_paid && t.revealed && t.win && !t.claimed
}

/// Why a claim is refused, if it is.
pub open spec fn claim_error(
    cfg: Config,
    round: Round,
    tokenomics: Tokenomics,
    book: Seq<Ticket>,
    user: Pubkey,
    round_id: u64,
    nonce: u64,
) -> Option<TimlgError> {
    if round.round_id != round_id || !occupied(book, round_id, user@, nonce) {
        Some(TimlgError::TicketPdaMismatch)
    } else {
        let t = book[ticket_index(book, round_id, user@, nonce)];
        if !round.token_settled {
            Some(TimlgError::RoundNotSettled)
        } else if round.swept {
            Some(TimlgError::ClaimAfterSweep)
        } else if !t.stake_paid {
            Some(TimlgError::StakeNotPaid)
        } else if !t.revealed {
            Some(TimlgError::TicketNotRevealed)
        } else if !t.win {
            Some(TimlgError::NotWinner)
        } else if t.claimed {
            Some(TimlgError::AlreadyClaimed)
        } else if tokenomics.reward_fee_bps > BPS_DENOMINATOR {
            Some(TimlgError::InvalidBps)
        } else if cfg.stake_amount * tokenomics.reward_fee_bps > u64::MAX {
            Some(TimlgError::MathOverflow)
        } else {
            None
        }
    }
}

/// Claims the reward of a winning ticket of a settled round that has not
/// been swept: the stake goes back to the user, and a reward equal to the
/// stake is minted, `stake * fee_bps / 10000` of it to the fee pool and the
/// rest to the user. The ticket is marked claimed, so it pays once.
pub fn claim_reward(
    cfg: &Config,
    round: &Round,
    tokenomics: &Tokenomics,
    book: &mut TicketBook,
    user: &Pubkey,
    round_id: u64,
    nonce: u64,
    current_slot: u64,
) -> (r: Result<ClaimPayout, TimlgError>)
    requires
        old(book).wf(),
    ensures
        final(book).wf(),
        match claim_error(*cfg, *round, *tokenomics, old(book)@, *user, round_id, nonce) {
            Some(e) => r == Err::<ClaimPayout, TimlgError>(e) && final(book)@ == old(book)@,
            None => {
                let k = ticket_index(old(book)@, round_id, user@, nonce);
                let fee = fee_of(cfg.stake_amount, tokenomics.reward_fee_bps);
                &&& r == Ok::<ClaimPayout, TimlgError>(
                    ClaimPayout {
                        stake_return: cfg.stake_amount,
                        user_reward: (cfg.stake_amount - fee) as u64,
                        fee: fee as u64,
                    },
                )
                &&& final(book)@ == old(book)@.update(
                    k,
                    Ticket { claimed: true, claimed_slot: current_slot, ..old(book)@[k] },
                )
            },
        },
        forall|rid: u64| count_pending(#[trigger] final(book)@, rid) == count_pending(old(book)@, rid),
        r is Ok ==> claim_allowed(*round, old(book)@[ticket_index(old(book)@, round_id, user@, nonce)]),
{
    if round.round_id != round_id {
        return Err(TimlgError::TicketPdaMismatch);
    }
    let k = match book.find(round_id, user, nonce) {
        Some(k) => k,
        None => {
            return Err(TimlgError::TicketPdaMismatch);
        },
    };
    let t = book.ticket_at(k);
    if !round.token_settled {
        return Err(TimlgError::RoundNotSettled);
    }
    if round.swept {
        return Err(TimlgError::ClaimAfterSweep);
    }
    if !t.stake_paid {
        return Err(TimlgError::StakeNotPaid);
    }
    if !t.revealed {
        return Err(TimlgError::TicketNotRevealed);
    }
    if !t.win {
        return Err(TimlgError::NotWinner);
    }
    if t.claimed {
        return Err(TimlgError::AlreadyClaimed);
    }
    if tokenomics.reward_fee_bps as u64 > BPS_DENOMINATOR {
        return Err(TimlgError::InvalidBps);
    }
    let reward_total = cfg.stake_amount;
    let scaled = match reward_total.checked_mul(tokenomics.reward_fee_bps as u64) {
        Some(v) => v,
        None => {
            return Err(TimlgError::MathOverflow);
        },
    };
    let fee = scaled / BPS_DENOMINATOR;
    assert(fee <= reward_total) by (nonlinear_arith)
        requires
            scaled == reward_total * tokenomics.reward_fee_bps,
            tokenomics.reward_fee_bps <= 10000,
            fee == scaled / 10000,
    ;
    let user_reward = reward_total - fee;
    let mut t2 = t;
    t2.claimed = true;
    t2.claimed_slot = current_slot;
    let ghost before = book@;
    book.replace(k, t2);
    proof {
        assert forall|rid: u64| count_pending(book@, rid) == count_pending(before, rid) by {
            lemma_count_update(before, k as int, t2, rid);
        }
    }
    Ok(ClaimPayout { stake_return: reward_total, user_reward, fee })
}

} // verus!
