use timlg_protocol::admin::{create_round, create_round_auto, initialize_config, initialize_round_registry, initialize_tokenomics};
use timlg_protocol::book::TicketBook;
use timlg_protocol::codec::{commit_hash, derive_bit_index, expected_commit_msg, expected_pulse_msg, expected_reveal_msg, get_pulse_bit};
use timlg_protocol::commit::{commit_batch, commit_batch_signed, commit_ticket};
use timlg_protocol::ed25519::{ed25519_program_id, Instruction};
use timlg_protocol::lifecycle::{close_round, close_ticket, finalize_round, recover_funds, recover_funds_anyone, settle_round_tokens, sweep_unclaimed, SweepPayout, TicketKey};
use timlg_protocol::oracle::{set_oracle_pubkey, set_pulse_signed};
use timlg_protocol::reveals::{reveal_batch, reveal_batch_signed, reveal_ticket};
use timlg_protocol::reward::{claim_reward, ClaimPayout};
use timlg_protocol::state::{CommitEntry, CommitSignedEntry, Config, RevealEntry, RevealSignedEntry, Round, RoundState, Tokenomics};
use timlg_protocol::{Pubkey, TimlgError};

const STAKE: u64 = 1_000_000_000;

fn key() -> Pubkey {
    Pubkey::new_from_array(solana_pubkey::Pubkey::new_unique().to_bytes())
}

fn signed_ix(signer: &Pubkey, msg: &[u8]) -> Instruction {
    let mut data = vec![0u8; 16 + 64 + 32 + msg.len()];
    data[0] = 1;
    let fields: [u16; 7] = [16, u16::MAX, 80, u16::MAX, 112, msg.len() as u16, u16::MAX];
    for (i, f) in fields.iter().enumerate() {
        data[2 + 2 * i..4 + 2 * i].copy_from_slice(&f.to_le_bytes());
    }
    data[80..112].copy_from_slice(&signer.to_bytes());
    data[112..].copy_from_slice(msg);
    Instruction { program_id: ed25519_program_id(), data }
}

struct World {
    program_id: Pubkey,
    admin: Pubkey,
    oracle: Pubkey,
    cfg: Config,
    tokenomics: Tokenomics,
    round: Round,
    book: TicketBook,
}

fn world(round_id: u64, commit_deadline: u64, reveal_deadline: u64) -> World {
    let admin = key();
    let oracle = key();
    let mut cfg = initialize_config(&admin, STAKE, 1000, 1000, &key(), &key(), &key()).unwrap();
    set_oracle_pubkey(&mut cfg, &admin, oracle).unwrap();
    let tokenomics = initialize_tokenomics(&cfg, &admin, 100, &key(), &key()).unwrap();
    let round = create_round(&cfg, &admin, round_id, 5, commit_deadline, reveal_deadline, &key(), &key(), 0).unwrap();
    World { program_id: key(), admin, oracle, cfg, tokenomics, round, book: TicketBook::new() }
}

fn publish(w: &mut World, round_id: u64, pulse: [u8; 64], slot: u64) -> Result<(), TimlgError> {
    let msg = expected_pulse_msg(&w.program_id, round_id, w.round.pulse_index_target, &pulse);
    let tx = vec![signed_ix(&w.oracle, &msg), Instruction { program_id: w.program_id, data: vec![] }];
    set_pulse_signed(&w.cfg, &mut w.round, &w.program_id, round_id, pulse, &tx, 1, slot)
}

fn scenario(pulse: [u8; 64]) {
    let mut w = world(1, 100, 200);
    let user = key();
    let salt = [3u8; 32];
    let commitment = commit_hash(1, &user, 7, 1, &salt);
    assert_eq!(commit_ticket(&w.cfg, &mut w.round, &mut w.book, &user, 1, 7, commitment, 50), Ok(STAKE));
    let t = w.book.get(1, &user, 7).unwrap();
    assert_eq!(t.bit_index, derive_bit_index(1, &user, 7));
    assert_eq!(w.round.committed_count, 1);

    // Slot 150 is exactly the late-pulse cutoff (200 - 50) of this round.
    assert_eq!(publish(&mut w, 1, pulse, 150), Err(TimlgError::PulseTooLate));
    assert_eq!(publish(&mut w, 1, pulse, 149), Ok(()));
    assert_eq!(w.round.state, RoundState::PulseSet);

    assert_eq!(reveal_ticket(&w.cfg, &mut w.round, &mut w.book, &user, 1, 7, 1, salt, 180), Ok(()));
    let t = w.book.get(1, &user, 7).unwrap();
    let won = get_pulse_bit(&pulse, t.bit_index) == 1;
    assert!(t.revealed);
    assert_eq!(t.win, won);
    assert_eq!(w.round.revealed_count, 1);
    assert_eq!(w.round.win_count, if won { 1 } else { 0 });

    let keys = vec![TicketKey { round_id: 1, user, nonce: 7 }];
    let burn = settle_round_tokens(&w.cfg, &mut w.round, &mut w.book, 1, &keys, 250).unwrap();
    assert_eq!(burn, if won { 0 } else { STAKE });
    assert!(w.round.finalized);
    assert!(w.round.token_settled);
    assert_eq!(w.round.settled_count, w.round.committed_count);

    let claim = claim_reward(&w.cfg, &w.round, &w.tokenomics, &mut w.book, &user, 1, 7, 260);
    if won {
        let fee = STAKE * 100 / 10_000;
        assert_eq!(claim, Ok(ClaimPayout { stake_return: STAKE, user_reward: STAKE - fee, fee }));
        assert_eq!(fee, 10_000_000);
        assert_eq!(
            claim_reward(&w.cfg, &w.round, &w.tokenomics, &mut w.book, &user, 1, 7, 261),
            Err(TimlgError::AlreadyClaimed)
        );
    } else {
        assert_eq!(claim, Err(TimlgError::NotWinner));
    }
}

#[test]
fn scenario_winning_ticket_claims_reward_minus_fee() {
    scenario([0xFFu8; 64]);
}

#[test]
fn scenario_losing_ticket_is_burned() {
    scenario([0u8; 64]);
}

#[test]
fn create_round_enforces_minimum_reveal_window() {
    let w = world(1, 100, 200);
    assert_eq!(
        create_round(&w.cfg, &w.admin, 2, 0, 100, 159, &key(), &key(), 0).err(),
        Some(TimlgError::RevealWindowTooShort)
    );
    assert_eq!(
        create_round(&w.cfg, &w.admin, 2, 0, 100, 100, &key(), &key(), 0).err(),
        Some(TimlgError::InvalidDeadlines)
    );
    assert!(create_round(&w.cfg, &w.admin, 2, 0, 100, 160, &key(), &key(), 0).is_ok());
    assert_eq!(
        create_round(&w.cfg, &key(), 2, 0, 100, 160, &key(), &key(), 0).err(),
        Some(TimlgError::Unauthorized)
    );
}

#[test]
fn registry_issues_increasing_round_ids() {
    let w = world(1, 100, 200);
    let mut reg = initialize_round_registry(&w.cfg, &w.admin, 10).unwrap();
    let a = create_round_auto(&w.cfg, &mut reg, &w.admin, 0, 100, 200, &key(), &key(), 0).unwrap();
    let b = create_round_auto(&w.cfg, &mut reg, &w.admin, 0, 100, 200, &key(), &key(), 0).unwrap();
    assert_eq!(a.round_id, 10);
    assert_eq!(b.round_id, 11);
    assert_eq!(reg.next_round_id, 12);
    assert_eq!(a.state, RoundState::Announced);
}

#[test]
fn batch_commit_with_replayed_key_aborts_whole_batch() {
    let mut w = world(1, 100, 200);
    let user = key();
    assert!(commit_ticket(&w.cfg, &mut w.round, &mut w.book, &user, 1, 2, [1u8; 32], 10).is_ok());
    let before = w.round;
    let entries = vec![
        CommitEntry { nonce: 1, commitment: [0u8; 32] },
        CommitEntry { nonce: 2, commitment: [0u8; 32] },
        CommitEntry { nonce: 3, commitment: [0u8; 32] },
    ];
    assert_eq!(
        commit_batch(&w.cfg, &mut w.round, &mut w.book, &user, 1, &entries, 20),
        Err(TimlgError::TicketAlreadyExists)
    );
    assert_eq!(w.book.len(), 1);
    assert_eq!(w.round.committed_count, before.committed_count);
    assert!(w.book.get(1, &user, 1).is_none());

    let dup = vec![CommitEntry { nonce: 5, commitment: [0u8; 32] }, CommitEntry { nonce: 5, commitment: [0u8; 32] }];
    assert_eq!(
        commit_batch(&w.cfg, &mut w.round, &mut w.book, &user, 1, &dup, 20),
        Err(TimlgError::TicketAlreadyExists)
    );
    assert_eq!(w.book.len(), 1);

    let fresh = vec![CommitEntry { nonce: 5, commitment: [0u8; 32] }, CommitEntry { nonce: 6, commitment: [0u8; 32] }];
    assert_eq!(commit_batch(&w.cfg, &mut w.round, &mut w.book, &user, 1, &fresh, 20), Ok(2 * STAKE));
    assert_eq!(w.round.committed_count, 3);
    assert_eq!(w.book.len(), 3);
}

#[test]
fn batch_commit_limits_and_windows() {
    let mut w = world(1, 100, 200);
    let user = key();
    let many: Vec<CommitEntry> = (0..17).map(|n| CommitEntry { nonce: n, commitment: [0u8; 32] }).collect();
    assert_eq!(
        commit_batch(&w.cfg, &mut w.round, &mut w.book, &user, 1, &many, 10),
        Err(TimlgError::TooManyEntries)
    );
    let one = vec![CommitEntry { nonce: 1, commitment: [0u8; 32] }];
    assert_eq!(
        commit_batch(&w.cfg, &mut w.round, &mut w.book, &user, 1, &one, 101),
        Err(TimlgError::CommitClosed)
    );
    assert_eq!(
        commit_ticket(&w.cfg, &mut w.round, &mut w.book, &user, 2, 1, [0u8; 32], 10),
        Err(TimlgError::TicketPdaMismatch)
    );
    assert!(commit_ticket(&w.cfg, &mut w.round, &mut w.book, &user, 1, 1, [0u8; 32], 10).is_ok());
    assert_eq!(
        commit_ticket(&w.cfg, &mut w.round, &mut w.book, &user, 1, 1, [0u8; 32], 10),
        Err(TimlgError::TicketAlreadyExists)
    );
}

#[test]
fn signed_batch_commit_checks_attestations() {
    let mut w = world(1, 100, 200);
    let user = key();
    let entries = vec![
        CommitSignedEntry { user, nonce: 1, commitment: [4u8; 32] },
        CommitSignedEntry { user, nonce: 2, commitment: [5u8; 32] },
    ];
    let m0 = expected_commit_msg(&w.program_id, 1, &user, 1, &[4u8; 32]);
    let m1 = expected_commit_msg(&w.program_id, 1, &user, 2, &[5u8; 32]);
    let here = Instruction { program_id: w.program_id, data: vec![] };
    let bad_tx = vec![signed_ix(&user, &m0), signed_ix(&user, &m0), Instruction { program_id: w.program_id, data: vec![] }];
    assert_eq!(
        commit_batch_signed(&w.cfg, &mut w.round, &mut w.book, &w.program_id, &user, 1, &entries, &bad_tx, 2, 10),
        Err(TimlgError::Ed25519MessageMismatch)
    );
    let other = key();
    let wrong_signer = vec![signed_ix(&other, &m0), signed_ix(&user, &m1), Instruction { program_id: w.program_id, data: vec![] }];
    assert_eq!(
        commit_batch_signed(&w.cfg, &mut w.round, &mut w.book, &w.program_id, &user, 1, &entries, &wrong_signer, 2, 10),
        Err(TimlgError::Ed25519PubkeyMismatch)
    );
    let tx = vec![signed_ix(&user, &m0), signed_ix(&user, &m1), here];
    assert_eq!(
        commit_batch_signed(&w.cfg, &mut w.round, &mut w.book, &w.program_id, &user, 1, &entries, &tx, 1, 10),
        Err(TimlgError::MissingOrInvalidEd25519Ix)
    );
    let mixed = vec![CommitSignedEntry { user: other, nonce: 1, commitment: [4u8; 32] }];
    assert_eq!(
        commit_batch_signed(&w.cfg, &mut w.round, &mut w.book, &w.program_id, &user, 1, &mixed, &tx, 2, 10),
        Err(TimlgError::SignedBatchMixedUsers)
    );
    assert_eq!(
        commit_batch_signed(&w.cfg, &mut w.round, &mut w.book, &w.program_id, &user, 1, &entries, &tx, 2, 10),
        Ok(2 * STAKE)
    );
    assert_eq!(w.round.committed_count, 2);
    assert_eq!(
        commit_batch_signed(&w.cfg, &mut w.round, &mut w.book, &w.program_id, &user, 1, &entries, &tx, 2, 10),
        Err(TimlgError::TicketAlreadyExists)
    );
}

#[test]
fn reveal_rejects_wrong_salt_and_guess() {
    let mut w = world(1, 100, 200);
    let user = key();
    let salt = [8u8; 32];
    let c = commit_hash(1, &user, 1, 0, &salt);
    commit_ticket(&w.cfg, &mut w.round, &mut w.book, &user, 1, 1, c, 10).unwrap();
    assert_eq!(
        reveal_ticket(&w.cfg, &mut w.round, &mut w.book, &user, 1, 1, 0, salt, 120),
        Err(TimlgError::PulseNotSet)
    );
    publish(&mut w, 1, [0u8; 64], 120).unwrap();
    assert_eq!(
        reveal_ticket(&w.cfg, &mut w.round, &mut w.book, &user, 1, 1, 2, salt, 130),
        Err(TimlgError::InvalidGuess)
    );
    assert_eq!(
        reveal_ticket(&w.cfg, &mut w.round, &mut w.book, &user, 1, 1, 1, salt, 130),
        Err(TimlgError::CommitmentMismatch)
    );
    assert_eq!(
        reveal_ticket(&w.cfg, &mut w.round, &mut w.book, &user, 1, 1, 0, salt, 201),
        Err(TimlgError::RevealClosed)
    );
    assert_eq!(reveal_ticket(&w.cfg, &mut w.round, &mut w.book, &user, 1, 1, 0, salt, 130), Ok(()));
    assert!(w.book.get(1, &user, 1).unwrap().win);
    assert_eq!(
        reveal_ticket(&w.cfg, &mut w.round, &mut w.book, &user, 1, 1, 0, salt, 131),
        Err(TimlgError::AlreadyRevealed)
    );
    assert_eq!(w.round.revealed_count, 1);
}

#[test]
fn reveal_batch_is_atomic() {
    let mut w = world(1, 100, 200);
    let user = key();
    let salt = [1u8; 32];
    commit_ticket(&w.cfg, &mut w.round, &mut w.book, &user, 1, 1, commit_hash(1, &user, 1, 1, &salt), 10).unwrap();
    commit_ticket(&w.cfg, &mut w.round, &mut w.book, &user, 1, 2, commit_hash(1, &user, 2, 0, &salt), 10).unwrap();
    publish(&mut w, 1, [0xFFu8; 64], 120).unwrap();
    let bad = vec![RevealEntry { nonce: 1, guess: 1, salt }, RevealEntry { nonce: 2, guess: 1, salt }];
    assert_eq!(
        reveal_batch(&w.cfg, &mut w.round, &mut w.book, &user, 1, &bad, 130),
        Err(TimlgError::CommitmentMismatch)
    );
    assert!(!w.book.get(1, &user, 1).unwrap().revealed);
    assert_eq!(w.round.revealed_count, 0);
    let good = vec![RevealEntry { nonce: 1, guess: 1, salt }, RevealEntry { nonce: 2, guess: 0, salt }];
    assert_eq!(reveal_batch(&w.cfg, &mut w.round, &mut w.book, &user, 1, &good, 130), Ok(()));
    assert_eq!(w.round.revealed_count, 2);
    assert_eq!(w.round.win_count, 1);
}

#[test]
fn signed_reveal_batch_reveals_all_entries() {
    let mut w = world(1, 100, 200);
    let user = key();
    let salt = [2u8; 32];
    commit_ticket(&w.cfg, &mut w.round, &mut w.book, &user, 1, 4, commit_hash(1, &user, 4, 1, &salt), 10).unwrap();
    publish(&mut w, 1, [0xFFu8; 64], 120).unwrap();
    let entries = vec![RevealSignedEntry { user, nonce: 4, guess: 1, salt }];
    let msg = expected_reveal_msg(&w.program_id, 1, &user, 4, 1, &salt);
    let tx = vec![signed_ix(&user, &msg), Instruction { program_id: w.program_id, data: vec![] }];
    let wrong = vec![signed_ix(&key(), &msg), Instruction { program_id: w.program_id, data: vec![] }];
    assert_eq!(
        reveal_batch_signed(&w.cfg, &mut w.round, &mut w.book, &w.program_id, 1, &entries, &wrong, 1, 130),
        Err(TimlgError::Ed25519PubkeyMismatch)
    );
    assert_eq!(reveal_batch_signed(&w.cfg, &mut w.round, &mut w.book, &w.program_id, 1, &entries, &tx, 1, 130), Ok(()));
    let t = w.book.get(1, &user, 4).unwrap();
    assert!(t.revealed && t.win);
}

#[test]
fn pulse_is_published_once_and_in_its_window() {
    let mut w = world(1, 100, 200);
    assert_eq!(publish(&mut w, 1, [1u8; 64], 99), Err(TimlgError::CommitClosed));
    assert_eq!(publish(&mut w, 1, [1u8; 64], 150), Err(TimlgError::PulseTooLate));
    assert_eq!(publish(&mut w, 1, [1u8; 64], 149), Ok(()));
    assert_eq!(publish(&mut w, 1, [2u8; 64], 120), Err(TimlgError::PulseAlreadySet));
    assert_eq!(w.round.pulse, [1u8; 64]);
    let mut unset = world(1, 100, 200);
    unset.cfg.oracle_pubkey = Pubkey::default_key();
    assert_eq!(publish(&mut unset, 1, [1u8; 64], 120), Err(TimlgError::OracleNotSet));
    let mut forged = world(1, 100, 200);
    let msg = expected_pulse_msg(&forged.program_id, 1, 5, &[1u8; 64]);
    let tx = vec![signed_ix(&key(), &msg), Instruction { program_id: forged.program_id, data: vec![] }];
    let pid = forged.program_id;
    assert_eq!(
        set_pulse_signed(&forged.cfg, &mut forged.round, &pid, 1, [1u8; 64], &tx, 1, 120),
        Err(TimlgError::Ed25519PubkeyMismatch)
    );
}

#[test]
fn finalize_requires_pulse_and_closed_reveal_window() {
    let mut w = world(1, 100, 200);
    let admin = w.admin;
    assert_eq!(finalize_round(&w.cfg, &mut w.round, &admin, 1, 300), Err(TimlgError::PulseNotSet));
    publish(&mut w, 1, [0u8; 64], 120).unwrap();
    assert_eq!(finalize_round(&w.cfg, &mut w.round, &admin, 1, 200), Err(TimlgError::CannotFinalizeYet));
    assert_eq!(finalize_round(&w.cfg, &mut w.round, &key(), 1, 201), Err(TimlgError::Unauthorized));
    assert_eq!(finalize_round(&w.cfg, &mut w.round, &admin, 1, 201), Ok(()));
    assert_eq!(w.round.state, RoundState::Finalized);
    assert_eq!(finalize_round(&w.cfg, &mut w.round, &admin, 1, 202), Err(TimlgError::AlreadyFinalized));
}

#[test]
fn settlement_is_incremental_and_counts_each_ticket_once() {
    let mut w = world(1, 100, 200);
    let users = [key(), key(), key()];
    for u in users.iter() {
        commit_ticket(&w.cfg, &mut w.round, &mut w.book, u, 1, 1, [0u8; 32], 10).unwrap();
    }
    assert_eq!(
        settle_round_tokens(&w.cfg, &mut w.round, &mut w.book, 1, &vec![], 250),
        Err(TimlgError::PulseNotSet)
    );
    publish(&mut w, 1, [0u8; 64], 120).unwrap();
    assert_eq!(
        settle_round_tokens(&w.cfg, &mut w.round, &mut w.book, 1, &vec![], 200),
        Err(TimlgError::SettleTooEarly)
    );
    let first = vec![TicketKey { round_id: 1, user: users[0], nonce: 1 }, TicketKey { round_id: 1, user: users[0], nonce: 1 }];
    assert_eq!(settle_round_tokens(&w.cfg, &mut w.round, &mut w.book, 1, &first, 250), Ok(STAKE));
    assert_eq!(w.round.settled_count, 1);
    assert!(w.round.finalized);
    assert!(!w.round.token_settled);
    let all: Vec<TicketKey> = users.iter().map(|u| TicketKey { round_id: 1, user: *u, nonce: 1 }).collect();
    assert_eq!(settle_round_tokens(&w.cfg, &mut w.round, &mut w.book, 1, &all, 251), Ok(2 * STAKE));
    assert_eq!(w.round.settled_count, 3);
    assert!(w.round.token_settled);
    assert_eq!(
        settle_round_tokens(&w.cfg, &mut w.round, &mut w.book, 1, &all, 252),
        Err(TimlgError::RoundTokensAlreadySettled)
    );
    let missing = vec![TicketKey { round_id: 1, user: key(), nonce: 1 }];
    let mut w2 = world(1, 100, 200);
    publish(&mut w2, 1, [0u8; 64], 120).unwrap();
    assert_eq!(
        settle_round_tokens(&w2.cfg, &mut w2.round, &mut w2.book, 1, &missing, 250),
        Err(TimlgError::TicketNotOwnedByProgram)
    );
}

#[test]
fn claims_close_after_sweep() {
    let mut w = world(1, 100, 200);
    let user = key();
    let salt = [0u8; 32];
    commit_ticket(&w.cfg, &mut w.round, &mut w.book, &user, 1, 1, commit_hash(1, &user, 1, 1, &salt), 10).unwrap();
    publish(&mut w, 1, [0xFFu8; 64], 120).unwrap();
    reveal_ticket(&w.cfg, &mut w.round, &mut w.book, &user, 1, 1, 1, salt, 130).unwrap();
    assert_eq!(
        claim_reward(&w.cfg, &w.round, &w.tokenomics, &mut w.book, &user, 1, 1, 240),
        Err(TimlgError::RoundNotSettled)
    );
    let keys = vec![TicketKey { round_id: 1, user, nonce: 1 }];
    settle_round_tokens(&w.cfg, &mut w.round, &mut w.book, 1, &keys, 250).unwrap();
    let admin = w.admin;
    assert_eq!(
        sweep_unclaimed(&w.cfg, &mut w.round, &admin, 1, 5, 7, 1100),
        Err(TimlgError::SweepTooEarly)
    );
    assert_eq!(
        close_ticket(&w.cfg, &mut w.book, &user, 1, 1, true),
        Err(TimlgError::WinnerMustClaimFirst)
    );
    assert_eq!(
        sweep_unclaimed(&w.cfg, &mut w.round, &admin, 1, 5, 7, 1101),
        Ok(SweepPayout { lamports: 5, tokens: 7 })
    );
    assert_eq!(
        claim_reward(&w.cfg, &w.round, &w.tokenomics, &mut w.book, &user, 1, 1, 1102),
        Err(TimlgError::ClaimAfterSweep)
    );
    assert_eq!(sweep_unclaimed(&w.cfg, &mut w.round, &admin, 1, 0, 0, 1103), Err(TimlgError::AlreadySwept));
    assert_eq!(close_round(&w.cfg, &w.round, &admin, 1, 3), Err(TimlgError::VaultNotEmpty));
    assert_eq!(close_round(&w.cfg, &w.round, &admin, 1, 0), Ok(()));
    assert_eq!(close_ticket(&w.cfg, &mut w.book, &user, 1, 1, false), Ok(()));
    assert_eq!(w.book.len(), 0);
}

#[test]
fn refund_only_after_timeout_without_pulse() {
    let mut w = world(1, 100, 200);
    let user = key();
    commit_ticket(&w.cfg, &mut w.round, &mut w.book, &user, 1, 1, [0u8; 32], 10).unwrap();
    commit_ticket(&w.cfg, &mut w.round, &mut w.book, &user, 1, 2, [0u8; 32], 10).unwrap();
    assert_eq!(
        recover_funds(&w.cfg, &mut w.round, &mut w.book, &user, 1, 1, 350),
        Err(TimlgError::RefundTooEarly)
    );
    assert_eq!(recover_funds(&w.cfg, &mut w.round, &mut w.book, &user, 1, 1, 351), Ok(STAKE));
    assert_eq!(w.round.committed_count, 1);
    assert!(w.book.get(1, &user, 1).is_none());
    assert_eq!(recover_funds_anyone(&w.cfg, &mut w.round, &mut w.book, &user, 1, 2, 351), Ok(STAKE));
    assert_eq!(w.round.committed_count, 0);

    let mut p = world(1, 100, 200);
    commit_ticket(&p.cfg, &mut p.round, &mut p.book, &user, 1, 1, [0u8; 32], 10).unwrap();
    publish(&mut p, 1, [0u8; 64], 120).unwrap();
    assert_eq!(
        recover_funds(&p.cfg, &mut p.round, &mut p.book, &user, 1, 1, 1000),
        Err(TimlgError::PulseAlreadySet)
    );
    assert_eq!(
        recover_funds_anyone(&p.cfg, &mut p.round, &mut p.book, &user, 1, 1, 1000),
        Err(TimlgError::PulseAlreadySet)
    );
    assert_eq!(p.round.committed_count, 1);
}

#[test]
fn paused_protocol_refuses_commits() {
    let mut w = world(1, 100, 200);
    w.cfg.paused = true;
    let user = key();
    assert_eq!(
        commit_ticket(&w.cfg, &mut w.round, &mut w.book, &user, 1, 1, [0u8; 32], 10),
        Err(TimlgError::Paused)
    );
}

#[test]
fn canonical_messages_have_their_layout() {
    let pid = key();
    let user = key();
    let m = expected_commit_msg(&pid, 3, &user, 9, &[7u8; 32]);
    assert_eq!(m.len(), 24 + 32 + 8 + 32 + 8 + 32);
    assert_eq!(&m[..24], b"timlg-protocol:commit_v1");
    assert_eq!(&m[24..56], &pid.to_bytes());
    assert_eq!(&m[56..64], &3u64.to_le_bytes());
    let r = expected_reveal_msg(&pid, 3, &user, 9, 1, &[7u8; 32]);
    assert_eq!(&r[..24], b"timlg-protocol:reveal_v1");
    assert_eq!(r[24 + 32 + 8 + 32 + 8], 1);
    let p = expected_pulse_msg(&pid, 3, 4, &[6u8; 64]);
    assert_eq!(&p[..23], b"timlg-protocol:pulse_v1");
    assert_eq!(p.len(), 23 + 32 + 8 + 8 + 64);
}
