use timlg_protocol::admin::{
    fund_vault, initialize_config, initialize_tokenomics, set_claim_grace_slots, set_pause,
    update_sol_service_fee, update_stake_amount, update_tokenomics, withdraw_treasury_sol,
    withdraw_treasury_tokens, create_round,
};
use timlg_protocol::constants::DEFAULT_CLAIM_GRACE_SLOTS;
use timlg_protocol::escrow::{deposit_escrow, init_user_escrow, withdraw_escrow};
use timlg_protocol::oracle_set::{add_oracle, initialize_oracle_set, remove_oracle, set_oracle_threshold};
use timlg_protocol::state::{Config, RoundState};
use timlg_protocol::{Pubkey, TimlgError};

fn key() -> Pubkey {
    Pubkey::new_from_array(solana_pubkey::Pubkey::new_unique().to_bytes())
}

fn config(admin: &Pubkey) -> Config {
    initialize_config(admin, 10, 1000, 1000, &key(), &key(), &key()).unwrap()
}

#[test]
fn initialize_config_validates_and_defaults() {
    let admin = key();
    assert_eq!(initialize_config(&admin, 0, 1, 1, &key(), &key(), &key()).err(), Some(TimlgError::InvalidStakeAmount));
    assert_eq!(initialize_config(&admin, 1, 0, 1, &key(), &key(), &key()).err(), Some(TimlgError::InvalidWindow));
    assert_eq!(initialize_config(&admin, 1, 1, 0, &key(), &key(), &key()).err(), Some(TimlgError::InvalidWindow));
    let c = config(&admin);
    assert_eq!(c.admin, admin);
    assert_eq!(c.claim_grace_slots, DEFAULT_CLAIM_GRACE_SLOTS);
    assert!(!c.paused);
    assert!(c.oracle_pubkey.is_default());
    assert_eq!(c.oracle_pubkey, Pubkey::default());
}

#[test]
fn admin_setters_require_the_admin() {
    let admin = key();
    let mut c = config(&admin);
    assert_eq!(set_pause(&mut c, &key(), true), Err(TimlgError::Unauthorized));
    assert!(!c.paused);
    assert_eq!(set_pause(&mut c, &admin, true), Ok(()));
    assert!(c.paused);
    assert_eq!(set_claim_grace_slots(&mut c, &admin, 5), Ok(()));
    assert_eq!(c.claim_grace_slots, 5);
    assert_eq!(update_stake_amount(&mut c, &admin, 0), Err(TimlgError::InvalidStakeAmount));
    assert_eq!(update_stake_amount(&mut c, &admin, 42), Ok(()));
    assert_eq!(c.stake_amount, 42);
    assert_eq!(update_sol_service_fee(&mut c, &admin, 7), Ok(()));
    assert_eq!(c.sol_service_fee_lamports, 7);
    assert_eq!(
        create_round(&c, &admin, 1, 0, 10, 100, &key(), &key(), 0).err(),
        Some(TimlgError::Paused)
    );
}

#[test]
fn tokenomics_fee_is_bounded() {
    let admin = key();
    let c = config(&admin);
    assert_eq!(initialize_tokenomics(&c, &admin, 10_001, &key(), &key()).err(), Some(TimlgError::InvalidFeeBps));
    assert_eq!(initialize_tokenomics(&c, &key(), 10, &key(), &key()).err(), Some(TimlgError::Unauthorized));
    let mut t = initialize_tokenomics(&c, &admin, 10_000, &key(), &key()).unwrap();
    assert_eq!(t.reward_fee_bps, 10_000);
    assert_eq!(update_tokenomics(&c, &mut t, &admin, 20_000), Err(TimlgError::InvalidFeeBps));
    assert_eq!(update_tokenomics(&c, &mut t, &admin, 250), Ok(()));
    assert_eq!(t.reward_fee_bps, 250);
}

#[test]
fn treasury_withdrawals_keep_the_rent_minimum() {
    let admin = key();
    let c = config(&admin);
    assert_eq!(withdraw_treasury_sol(&c, &admin, 0, 1_000, 100), Ok(900));
    assert_eq!(withdraw_treasury_sol(&c, &admin, 901, 1_000, 100), Err(TimlgError::InsufficientVaultFunds));
    assert_eq!(withdraw_treasury_sol(&c, &admin, 900, 1_000, 100), Ok(900));
    assert_eq!(withdraw_treasury_sol(&c, &key(), 1, 1_000, 100), Err(TimlgError::Unauthorized));
    assert_eq!(withdraw_treasury_tokens(&c, &admin, 0, 55), Ok(55));
    assert_eq!(withdraw_treasury_tokens(&c, &admin, 5, 55), Ok(5));
}

#[test]
fn fund_vault_checks_round() {
    let admin = key();
    let c = config(&admin);
    let r = create_round(&c, &admin, 3, 0, 10, 100, &key(), &key(), 0).unwrap();
    assert_eq!(r.state, RoundState::Announced);
    assert_eq!(r.state.code(), 0);
    assert_eq!(fund_vault(&c, &r, 4, 10), Err(TimlgError::VaultPdaMismatch));
    assert_eq!(fund_vault(&c, &r, 3, 10), Ok(10));
    assert_eq!(fund_vault(&c, &r, 3, 0), Ok(0));
}

#[test]
fn oracle_allowlist_rules() {
    let admin = key();
    let c = config(&admin);
    let (a, b) = (key(), key());
    assert_eq!(initialize_oracle_set(&c, &admin, 0, vec![]).err(), Some(TimlgError::InvalidThreshold));
    assert_eq!(initialize_oracle_set(&c, &admin, 17, vec![]).err(), Some(TimlgError::InvalidThreshold));
    assert_eq!(initialize_oracle_set(&c, &admin, 2, vec![a]).err(), Some(TimlgError::ThresholdExceedsOracleCount));
    assert_eq!(initialize_oracle_set(&c, &admin, 1, vec![a, a]).err(), Some(TimlgError::OracleAlreadyExists));
    assert_eq!(initialize_oracle_set(&c, &admin, 1, vec![Pubkey::default()]).err(), Some(TimlgError::OracleNotFound));
    let many: Vec<Pubkey> = (0..17).map(|_| key()).collect();
    assert_eq!(initialize_oracle_set(&c, &admin, 1, many).err(), Some(TimlgError::OracleSetFull));
    let mut os = initialize_oracle_set(&c, &admin, 1, vec![a]).unwrap();
    assert_eq!(add_oracle(&c, &mut os, &admin, a), Err(TimlgError::OracleAlreadyExists));
    assert_eq!(add_oracle(&c, &mut os, &admin, Pubkey::default()), Err(TimlgError::OracleNotFound));
    assert_eq!(add_oracle(&c, &mut os, &admin, b), Ok(()));
    assert_eq!(os.oracles.len(), 2);
    assert_eq!(set_oracle_threshold(&c, &mut os, &admin, 3), Err(TimlgError::ThresholdExceedsOracleCount));
    assert_eq!(set_oracle_threshold(&c, &mut os, &admin, 2), Ok(()));
    assert_eq!(remove_oracle(&c, &mut os, &admin, a), Err(TimlgError::ThresholdExceedsOracleCount));
    assert_eq!(set_oracle_threshold(&c, &mut os, &admin, 1), Ok(()));
    assert_eq!(remove_oracle(&c, &mut os, &admin, a), Ok(()));
    assert_eq!(os.oracles, vec![b]);
    assert_eq!(remove_oracle(&c, &mut os, &admin, a), Err(TimlgError::OracleNotFound));
    assert_eq!(add_oracle(&c, &mut os, &key(), a), Err(TimlgError::Unauthorized));
}

#[test]
fn escrow_deposits_and_withdrawals() {
    let user = key();
    let mut e = init_user_escrow(&user, 5);
    assert_eq!(e.created_slot, 5);
    assert_eq!(deposit_escrow(&mut e, 0, 6), Err(TimlgError::InvalidStakeAmount));
    assert_eq!(deposit_escrow(&mut e, 100, 7), Ok(100));
    assert_eq!(e.updated_slot, 7);
    assert_eq!(withdraw_escrow(&mut e, &key(), 10, 8), Err(TimlgError::Unauthorized));
    assert_eq!(withdraw_escrow(&mut e, &user, 10, 9), Ok(10));
    assert_eq!(e.updated_slot, 9);
}
