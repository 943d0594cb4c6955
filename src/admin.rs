//! Administrative operations: configuration, the round registry, round
//! creation, tokenomics, and treasury bookkeeping.
use vstd::prelude::*;

use crate::constants::{
    BPS_DENOMINATOR, DEFAULT_CLAIM_GRACE_SLOTS, INITIAL_VERSION, MIN_REVEAL_WINDOW_SLOTS,
};
use crate::error::TimlgError;
use crate::pubkey::Pubkey;
use crate::state::{Config, Round, RoundRegistry, RoundState, Tokenomics};

verus! {

/// Why a configuration is refused, if it is.
pub open spec fn config_error(stake_amount: u64, commit_window_slots: u64, reveal_window_slots: u64) -> Option<TimlgError> {
    if stake_amount == 0 {
        Some(TimlgError::InvalidStakeAmount)
    } else if commit_window_slots == 0 || reveal_window_slots == 0 {
        Some(TimlgError::InvalidWindow)
    } else {
        None
    }
}

/// Creates the protocol configuration, unpaused, with no oracle set yet and
/// the default claim grace period.
pub fn initialize_config(
    admin: &Pubkey,
    stake_amount: u64,
    commit_window_slots: u64,
    reveal_window_slots: u64,
    timlg_mint: &Pubkey,
    treasury: &Pubkey,
    treasury_sol: &Pubkey,
) -> (r: Result<Config, TimlgError>)
    ensures
        match config_error(stake_amount, commit_window_slots, reveal_window_slots) {
            Some(e) => r == Err::<Config, TimlgError>(e),
            None => r matches Ok(c) && c.admin == *admin && c.stake_amount == stake_amount
                && c.commit_window_slots == commit_window_slots && c.reveal_window_slots
                == reveal_window_slots && c.claim_grace_slots == DEFAULT_CLAIM_GRACE_SLOTS
                && c.oracle_pubkey@ == Seq::new(32, |i: int| 0u8) && !c.paused && c.version
                == INITIAL_VERSION && c.timlg_mint == *timlg_mint && c.treasury == *treasury
                && c.treasury_sol == *treasury_sol && c.sol_service_fee_lamports == 0,
        },
{
    if stake_amount == 0 {
        return Err(TimlgError::InvalidStakeAmount);
    }
    if commit_window_slots == 0 || reveal_window_slots == 0 {
        return Err(TimlgError::InvalidWindow);
    }
    Ok(Config {
        admin: *admin,
        stake_amount,
        commit_window_slots,
        reveal_window_slots,
        claim_grace_slots: DEFAULT_CLAIM_GRACE_SLOTS,
        oracle_pubkey: Pubkey::default_key(),
        paused: false,
        version: INITIAL_VERSION,
        timlg_mint: *timlg_mint,
        treasury: *treasury,
        treasury_sol: *treasury_sol,
        sol_service_fee_lamports: 0,
    })
}

/// Sets the pause flag. Only the administrator may.
pub fn set_pause(cfg: &mut Config, admin: &Pubkey, paused: bool) -> (r: Result<(), TimlgError>)
    ensures
        old(cfg).admin@ != admin@ ==> r == Err::<(), TimlgError>(TimlgError::Unauthorized)
            && *final(cfg) == *old(cfg),
        old(cfg).admin@ == admin@ ==> r is Ok && *final(cfg) == (Config { paused, ..*old(cfg) }),
{
    if !(cfg.admin == *admin) {
        return Err(TimlgError::Unauthorized);
    }
    cfg.paused = paused;
    Ok(())
}

/// Sets the claim grace period. Only the administrator may.
pub fn set_claim_grace_slots(cfg: &mut Config, admin: &Pubkey, claim_grace_slots: u64) -> (r: Result<(), TimlgError>)
    ensures
        old(cfg).admin@ != admin@ ==> r == Err::<(), TimlgError>(TimlgError::Unauthorized)
            && *final(cfg) == *old(cfg),
        old(cfg).admin@ == admin@ ==> r is Ok && *final(cfg) == (Config {
            claim_grace_slots,
            ..*old(cfg)
        }),
{
    if !(cfg.admin == *admin) {
        return Err(TimlgError::Unauthorized);
    }
    cfg.claim_grace_slots = claim_grace_slots;
    Ok(())
}

/// Sets the stake per ticket, which must be positive. Only the
/// administrator may.
pub fn update_stake_amount(cfg: &mut Config, admin: &Pubkey, new_stake_amount: u64) -> (r: Result<(), TimlgError>)
    ensures
        new_stake_amount == 0 ==> r == Err::<(), TimlgError>(TimlgError::InvalidStakeAmount)
            && *final(cfg) == *old(cfg),
        new_stake_amount != 0 && old(cfg).admin@ != admin@ ==> r == Err::<(), TimlgError>(
            TimlgError::Unauthorized,
        ) && *final(cfg) == *old(cfg),
        new_stake_amount != 0 && old(cfg).admin@ == admin@ ==> r is Ok && *final(cfg) == (Config {
            stake_amount: new_stake_amount,
            ..*old(cfg)
        }),
{
    if new_stake_amount == 0 {
        return Err(TimlgError::InvalidStakeAmount);
    }
    if !(cfg.admin == *admin) {
        return Err(TimlgError::Unauthorized);
    }
    cfg.stake_amount = new_stake_amount;
    Ok(())
}

/// Sets the per-ticket service fee in native currency. Only the
/// administrator may.
pub fn update_sol_service_fee(cfg: &mut Config, admin: &Pubkey, new_fee: u64) -> (r: Result<(), TimlgError>)
    ensures
        old(cfg).admin@ != admin@ ==> r == Err::<(), TimlgError>(TimlgError::Unauthorized)
            && *final(cfg) == *old(cfg),
        old(cfg).admin@ == admin@ ==> r is Ok && *final(cfg) == (Config {
            sol_service_fee_lamports: new_fee,
            ..*old(cfg)
        }),
{
    if !(cfg.admin == *admin) {
        return Err(TimlgError::Unauthorized);
    }
    cfg.sol_service_fee_lamports = new_fee;
    Ok(())
}

/// Creates the round registry, whose next round id is `start_round_id`.
/// Only the administrator may.
pub fn initialize_round_registry(cfg: &Config, admin: &Pubkey, start_round_id: u64) -> (r: Result<RoundRegistry, TimlgError>)
    ensures
        cfg.admin@ != admin@ ==> r == Err::<RoundRegistry, TimlgError>(TimlgError::Unauthorized),
        cfg.admin@ == admin@ ==> r == Ok::<RoundRegistry, TimlgError>(
            RoundRegistry { admin: cfg.admin, next_round_id: start_round_id, version: INITIAL_VERSION },
        ),
{
    if !(cfg.admin == *admin) {
        return Err(TimlgError::Unauthorized);
    }
    Ok(RoundRegistry { admin: cfg.admin, next_round_id: start_round_id, version: INITIAL_VERSION })
}

/// The all-zero pulse of a round whose pulse is not yet published.
pub open spec fn zero_pulse() -> [u8; 64] {
    choose|p: [u8; 64]| p@ == Seq::new(64, |i: int| 0u8)
}

/// A freshly announced round: no pulse, not finalized, swept or settled,
/// all counters zero.
pub open spec fn announced_round(
    round_id: u64,
    pulse_index_target: u64,
    commit_deadline_slot: u64,
    reveal_deadline_slot: u64,
    vault: Pubkey,
    timlg_vault: Pubkey,
    slot: u64,
) -> Round {
    Round {
        round_id,
        state: RoundState::Announced,
        vault,
        pulse_index_target,
        commit_deadline_slot,
        reveal_deadline_slot,
        created_slot: slot,
        pulse_set: false,
        pulse: zero_pulse(),
        pulse_set_slot: 0,
        finalized: false,
        finalized_slot: 0,
        swept: false,
        swept_slot: 0,
        timlg_vault,
        committed_count: 0,
        revealed_count: 0,
        win_count: 0,
        settled_count: 0,
        token_settled: false,
        token_settled_slot: 0,
    }
}

/// Why creating a round with these deadlines is refused, if it is.
pub open spec fn create_round_error(
    cfg: Config,
    admin: Pubkey,
    commit_deadline_slot: u64,
    reveal_deadline_slot: u64,
) -> Option<TimlgError> {
    if cfg.paused {
        Some(TimlgError::Paused)
    } else if cfg.admin@ != admin@ {
        Some(TimlgError::Unauthorized)
    } else if commit_deadline_slot >= reveal_deadline_slot {
        Some(TimlgError::InvalidDeadlines)
    } else if reveal_deadline_slot < commit_deadline_slot + MIN_REVEAL_WINDOW_SLOTS {
        Some(TimlgError::RevealWindowTooShort)
    } else {
        None
    }
}

fn check_create_round(cfg: &Config, admin: &Pubkey, commit_deadline_slot: u64, reveal_deadline_slot: u64) -> (r: Result<(), TimlgError>)
    ensures
        match create_round_error(*cfg, *admin, commit_deadline_slot, reveal_deadline_slot) {
            Some(e) => r == Err::<(), TimlgError>(e),
            None => r is Ok,
        },
{
    if cfg.paused {
        return Err(TimlgError::Paused);
    }
    if !(cfg.admin == *admin) {
        return Err(TimlgError::Unauthorized);
    }
    if commit_deadline_slot >= reveal_deadline_slot {
        return Err(TimlgError::InvalidDeadlines);
    }
    if reveal_deadline_slot - commit_deadline_slot < MIN_REVEAL_WINDOW_SLOTS {
        return Err(TimlgError::RevealWindowTooShort);
    }
    Ok(())
}

fn new_round(
    round_id: u64,
    pulse_index_target: u64,
    commit_deadline_slot: u64,
    reveal_deadline_slot: u64,
    vault: &Pubkey,
    timlg_vault: &Pubkey,
    slot: u64,
) -> (r: Round)
    ensures
        r == announced_round(
            round_id,
            pulse_index_target,
            commit_deadline_slot,
            reveal_deadline_slot,
            *vault,
            *timlg_vault,
            slot,
        ),
        r.wf(),
{
    let r = Round {
        round_id,
        state: RoundState::Announced,
        vault: *vault,
        pulse_index_target,
        commit_deadline_slot,
        reveal_deadline_slot,
        created_slot: slot,
        pulse_set: false,
        pulse: [0u8; 64],
        pulse_set_slot: 0,
        finalized: false,
        finalized_slot: 0,
        swept: false,
        swept_slot: 0,
        timlg_vault: *timlg_vault,
        committed_count: 0,
        revealed_count: 0,
        win_count: 0,
        settled_count: 0,
        token_settled: false,
        token_settled_slot: 0,
    };
    proof {
        assert(r.pulse@ =~= Seq::new(64, |i: int| 0u8));
        assert(zero_pulse()@ == Seq::new(64, |i: int| 0u8));
        assert(r.pulse@ =~= zero_pulse()@);
        broadcast use vstd::array::axiom_array_ext_equal;
        assert(r.pulse == zero_pulse());
    }
    r
}

/// Announces round `round_id` with the given deadlines; the reveal deadline
/// must come at least the minimum reveal window after the commit deadline.
/// Only the administrator may, while the protocol is not paused.
pub fn create_round(
    cfg: &Config,
    admin: &Pubkey,
    round_id: u64,
    pulse_index_target: u64,
    commit_deadline_slot: u64,
    reveal_deadline_slot: u64,
    vault: &Pubkey,
    timlg_vault: &Pubkey,
    current_slot: u64,
) -> (r: Result<Round, TimlgError>)
    ensures
        match create_round_error(*cfg, *admin, commit_deadline_slot, reveal_deadline_slot) {
            Some(e) => r == Err::<Round, TimlgError>(e),
            None => r == Ok::<Round, TimlgError>(
                announced_round(
                    round_id,
                    pulse_index_target,
                    commit_deadline_slot,
                    reveal_deadline_slot,
                    *vault,
                    *timlg_vault,
                    current_slot,
                ),
            ),
        },
        r matches Ok(round) ==> round.wf(),
{
    check_create_round(cfg, admin, commit_deadline_slot, reveal_deadline_slot)?;
    Ok(
        new_round(
            round_id,
            pulse_index_target,
            commit_deadline_slot,
            reveal_deadline_slot,
            vault,
            timlg_vault,
            current_slot,
        ),
    )
}

/// Announces the registry's next round and advances the registry, so that
/// round ids are issued in strictly increasing order and never reused.
pub fn create_round_auto(
    cfg: &Config,
    registry: &mut RoundRegistry,
    admin: &Pubkey,
    pulse_index_target: u64,
    commit_deadline_slot: u64,
    reveal_deadline_slot: u64,
    vault: &Pubkey,
    timlg_vault: &Pubkey,
    current_slot: u64,
) -> (r: Result<Round, TimlgError>)
    ensures
        match create_round_error(*cfg, *admin, commit_deadline_slot, reveal_deadline_slot) {
            Some(e) => r == Err::<Round, TimlgError>(e) && *final(registry) == *old(registry),
            None => if old(registry).next_round_id == u64::MAX {
                r == Err::<Round, TimlgError>(TimlgError::MathOverflow) && *final(registry)
                    == *old(registry)
            } else {
                r == Ok::<Round, TimlgError>(
                    announced_round(
                        old(registry).next_round_id,
                        pulse_index_target,
                        commit_deadline_slot,
                        reveal_deadline_slot,
                        *vault,
                        *timlg_vault,
                        current_slot,
                    ),
                ) && *final(registry) == (RoundRegistry {
                    next_round_id: (old(registry).next_round_id + 1) as u64,
                    ..*old(registry)
                })
            },
        },
        r matches Ok(round) ==> round.wf() && round.round_id < final(registry).next_round_id,
{
    check_create_round(cfg, admin, commit_deadline_slot, reveal_deadline_slot)?;
    let round_id = registry.next_round_id;
    if round_id == u64::MAX {
        return Err(TimlgError::MathOverflow);
    }
    let round = new_round(
        round_id,
        pulse_index_target,
        commit_deadline_slot,
        reveal_deadline_slot,
        vault,
        timlg_vault,
        current_slot,
    );
    registry.next_round_id = round_id + 1;
    Ok(round)
}

/// Creates the reward parameters; the fee must be at most 10000 basis
/// points. Only the administrator may.
pub fn initialize_tokenomics(
    cfg: &Config,
    admin: &Pubkey,
    reward_fee_bps: u16,
    reward_fee_pool: &Pubkey,
    replication_pool: &Pubkey,
) -> (r: Result<Tokenomics, TimlgError>)
    ensures
        reward_fee_bps > BPS_DENOMINATOR ==> r == Err::<Tokenomics, TimlgError>(
            TimlgError::InvalidFeeBps,
        ),
        reward_fee_bps <= BPS_DENOMINATOR && cfg.admin@ != admin@ ==> r == Err::<
            Tokenomics,
            TimlgError,
        >(TimlgError::Unauthorized),
        reward_fee_bps <= BPS_DENOMINATOR && cfg.admin@ == admin@ ==> r == Ok::<
            Tokenomics,
            TimlgError,
        >(
            Tokenomics {
                admin: *admin,
                reward_fee_bps,
                reward_fee_pool: *reward_fee_pool,
                replication_pool: *replication_pool,
                version: INITIAL_VERSION,
            },
        ),
{
    if reward_fee_bps as u64 > BPS_DENOMINATOR {
        return Err(TimlgError::InvalidFeeBps);
    }
    if !(cfg.admin == *admin) {
        return Err(TimlgError::Unauthorized);
    }
    Ok(
        Tokenomics {
            admin: *admin,
            reward_fee_bps,
            reward_fee_pool: *reward_fee_pool,
            replication_pool: *replication_pool,
            version: INITIAL_VERSION,
        },
    )
}

/// Sets the fee on minted rewards; it must be at most 10000 basis points.
/// Only the administrator may.
pub fn update_tokenomics(cfg: &Config, tokenomics: &mut Tokenomics, admin: &Pubkey, reward_fee_bps: u16) -> (r: Result<(), TimlgError>)
    ensures
        reward_fee_bps > BPS_DENOMINATOR ==> r == Err::<(), TimlgError>(TimlgError::InvalidFeeBps)
            && *final(tokenomics) == *old(tokenomics),
        reward_fee_bps <= BPS_DENOMINATOR && cfg.admin@ != admin@ ==> r == Err::<(), TimlgError>(
            TimlgError::Unauthorized,
        ) && *final(tokenomics) == *old(tokenomics),
        reward_fee_bps <= BPS_DENOMINATOR && cfg.admin@ == admin@ ==> r is Ok && *final(tokenomics)
            == (Tokenomics { reward_fee_bps, ..*old(tokenomics) }),
{
    if reward_fee_bps as u64 > BPS_DENOMINATOR {
        return Err(TimlgError::InvalidFeeBps);
    }
    if !(cfg.admin == *admin) {
        return Err(TimlgError::Unauthorized);
    }
    tokenomics.reward_fee_bps = reward_fee_bps;
    Ok(())
}

/// Decides a contribution of `amount` to round `round_id`'s native-currency
/// vault, returning what to transfer (nothing for a zero amount).
pub fn fund_vault(cfg: &Config, round: &Round, round_id: u64, amount: u64) -> (r: Result<u64, TimlgError>)
    ensures
        cfg.paused ==> r == Err::<u64, TimlgError>(TimlgError::Paused),
        !cfg.paused && round.round_id != round_id ==> r == Err::<u64, TimlgError>(
            TimlgError::VaultPdaMismatch,
        ),
        !cfg.paused && round.round_id == round_id ==> r == Ok::<u64, TimlgError>(amount),
{
    if cfg.paused {
        return Err(TimlgError::Paused);
    }
    if round.round_id != round_id {
        return Err(TimlgError::VaultPdaMismatch);
    }
    Ok(amount)
}

/// The amount a native-currency withdrawal asks for: everything above the
/// rent minimum when `amount` is zero, else `amount`.
pub open spec fn sol_withdraw_amount(amount: u64, balance: u64, min_rent: u64) -> int {
    if amount == 0 {
        if balance >= min_rent {
            balance - min_rent
        } else {
            0
        }
    } else {
        amount as int
    }
}

/// Decides a withdrawal from the native-currency treasury, whose balance is
/// `balance` and must keep `min_rent`: returns the amount to move to the
/// administrator.
pub fn withdraw_treasury_sol(cfg: &Config, admin: &Pubkey, amount: u64, balance: u64, min_rent: u64) -> (r: Result<u64, TimlgError>)
    ensures
        cfg.admin@ != admin@ ==> r == Err::<u64, TimlgError>(TimlgError::Unauthorized),
        cfg.admin@ == admin@ && balance < sol_withdraw_amount(amount, balance, min_rent) + min_rent
            ==> r == Err::<u64, TimlgError>(TimlgError::InsufficientVaultFunds),
        cfg.admin@ == admin@ && balance >= sol_withdraw_amount(amount, balance, min_rent) + min_rent
            ==> r == Ok::<u64, TimlgError>(sol_withdraw_amount(amount, balance, min_rent) as u64),
{
    if !(cfg.admin == *admin) {
        return Err(TimlgError::Unauthorized);
    }
    let withdraw_amount = if amount == 0 {
        balance.saturating_sub(min_rent)
    } else {
        amount
    };
    if withdraw_amount > balance || balance - withdraw_amount < min_rent {
        return Err(TimlgError::InsufficientVaultFunds);
    }
    Ok(withdraw_amount)
}

/// Decides a withdrawal from the token treasury holding `balance`: returns
/// the amount to move to the administrator, everything when `amount` is zero.
pub fn withdraw_treasury_tokens(cfg: &Config, admin: &Pubkey, amount: u64, balance: u64) -> (r: Result<u64, TimlgError>)
    ensures
        cfg.admin@ != admin@ ==> r == Err::<u64, TimlgError>(TimlgError::Unauthorized),
        cfg.admin@ == admin@ ==> r == Ok::<u64, TimlgError>(
            if amount == 0 {
                balance
            } else {
                amount
            },
        ),
{
    if !(cfg.admin == *admin) {
        return Err(TimlgError::Unauthorized);
    }
    if amount == 0 {
        Ok(balance)
    } else {
        Ok(amount)
    }
}

} // verus!
