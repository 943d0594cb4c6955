use std::str::FromStr;

use timlg_protocol::codec::{commit_hash, derive_bit_index, get_pulse_bit};
use timlg_protocol::ed25519::{
    assert_ed25519_ix_matches, ed25519_program_id, parse_ed25519_ix_pubkey_and_msg, Instruction,
};
use timlg_protocol::{Pubkey, TimlgError};

fn key_of(pk: solana_pubkey::Pubkey) -> Pubkey {
    Pubkey::new_from_array(pk.to_bytes())
}

fn unique_key() -> Pubkey {
    key_of(solana_pubkey::Pubkey::new_unique())
}

fn u16le(v: u16) -> [u8; 2] {
    v.to_le_bytes()
}

/// Instruction data in the standard ed25519 layout:
/// [num_sigs, padding, offsets (14 bytes), signature (64), pubkey (32), msg].
fn make_ed25519_ix(pubkey: [u8; 32], msg: &[u8], sig_ix: u16, pk_ix: u16, msg_ix: u16) -> Instruction {
    let header_len: usize = 2 + 14;
    let sig_off: u16 = header_len as u16;
    let pk_off: u16 = sig_off + 64;
    let msg_off: u16 = pk_off + 32;
    let msg_sz: u16 = msg.len().try_into().expect("message too long for u16 size in this test");

    let total_len = header_len + 64 + 32 + msg.len();
    let mut data = vec![0u8; total_len];
    data[0] = 1;
    data[1] = 0;
    let o = 2usize;
    data[o..o + 2].copy_from_slice(&u16le(sig_off));
    data[o + 2..o + 4].copy_from_slice(&u16le(sig_ix));
    data[o + 4..o + 6].copy_from_slice(&u16le(pk_off));
    data[o + 6..o + 8].copy_from_slice(&u16le(pk_ix));
    data[o + 8..o + 10].copy_from_slice(&u16le(msg_off));
    data[o + 10..o + 12].copy_from_slice(&u16le(msg_sz));
    data[o + 12..o + 14].copy_from_slice(&u16le(msg_ix));
    let pk_start = pk_off as usize;
    let msg_start = msg_off as usize;
    data[pk_start..pk_start + 32].copy_from_slice(&pubkey);
    data[msg_start..msg_start + msg.len()].copy_from_slice(msg);

    Instruction { program_id: ed25519_program_id(), data }
}

#[test]
fn test_bit_index_consistency() {
    let round_id: u64 = 37000;
    let sol_user = solana_pubkey::Pubkey::from_str("3ubbYD5VrSpQQW1GLWubkH9owvZK5GZVjvBnoADZSxpo").unwrap();
    let user = key_of(sol_user);
    let nonce: u64 = 12345678;

    let h = solana_sha256_hasher::hashv(&[
        b"bitindex".as_ref(),
        round_id.to_le_bytes().as_ref(),
        sol_user.as_ref(),
        nonce.to_le_bytes().as_ref(),
    ])
    .to_bytes();
    println!("Rust Hash Bytes: {:?}", &h[0..8]);

    let idx = derive_bit_index(round_id, &user, nonce);
    println!("Rust Bit Index: {}", idx);
    assert_eq!(idx, u16::from_le_bytes([h[0], h[1]]) % 512);
    assert_eq!(idx, derive_bit_index(round_id, &user, nonce));
}

#[test]
fn parse_ed25519_accepts_self_contained_indices() {
    let user = unique_key();
    let msg = b"hello-world".to_vec();
    let ix = make_ed25519_ix(user.to_bytes(), &msg, u16::MAX, u16::MAX, u16::MAX);
    let (pk, parsed_msg) = parse_ed25519_ix_pubkey_and_msg(&ix).expect("should parse");
    assert_eq!(pk, user);
    assert_eq!(parsed_msg, msg);
}

#[test]
fn parse_ed25519_rejects_external_message_instruction_index() {
    let user = unique_key();
    let msg = b"evil-msg".to_vec();
    let ix = make_ed25519_ix(user.to_bytes(), &msg, u16::MAX, u16::MAX, 0);
    let res = parse_ed25519_ix_pubkey_and_msg(&ix);
    assert!(res.is_err(), "parser must reject non-self-contained msg_ix");
}

#[test]
fn assert_ed25519_ix_matches_rejects_external_message_instruction_index() {
    let user = unique_key();
    let msg = b"evil-msg-2".to_vec();
    let ix = make_ed25519_ix(user.to_bytes(), &msg, u16::MAX, u16::MAX, 7);
    let res = assert_ed25519_ix_matches(&ix, &user, &msg);
    assert!(res.is_err(), "assert must reject non-self-contained msg_ix");
}

#[test]
fn assert_ed25519_ix_matches_rejects_wrong_pubkey_or_msg() {
    let user = unique_key();
    let other = unique_key();
    let msg = b"good".to_vec();
    let ix = make_ed25519_ix(user.to_bytes(), &msg, u16::MAX, u16::MAX, u16::MAX);

    let res_pk = assert_ed25519_ix_matches(&ix, &other, &msg);
    assert!(res_pk.is_err());
    assert_eq!(res_pk, Err(TimlgError::Ed25519PubkeyMismatch));

    let res_msg = assert_ed25519_ix_matches(&ix, &user, b"bad");
    assert!(res_msg.is_err());
    assert_eq!(res_msg, Err(TimlgError::Ed25519MessageMismatch));

    assert_eq!(assert_ed25519_ix_matches(&ix, &user, &msg), Ok(()));
}

#[test]
fn parse_ed25519_rejects_other_program_and_short_data() {
    let user = unique_key();
    let mut ix = make_ed25519_ix(user.to_bytes(), b"m", u16::MAX, u16::MAX, u16::MAX);
    ix.program_id = user;
    assert_eq!(
        parse_ed25519_ix_pubkey_and_msg(&ix).err(),
        Some(TimlgError::MissingOrInvalidEd25519Ix)
    );
    let short = Instruction { program_id: ed25519_program_id(), data: vec![1u8; 15] };
    assert_eq!(
        parse_ed25519_ix_pubkey_and_msg(&short).err(),
        Some(TimlgError::MissingOrInvalidEd25519Ix)
    );
    let mut two_sigs = make_ed25519_ix(user.to_bytes(), b"m", u16::MAX, u16::MAX, u16::MAX);
    two_sigs.data[0] = 2;
    assert!(parse_ed25519_ix_pubkey_and_msg(&two_sigs).is_err());
    let mut out_of_bounds = make_ed25519_ix(user.to_bytes(), b"m", u16::MAX, u16::MAX, u16::MAX);
    out_of_bounds.data[12] = 200;
    assert!(parse_ed25519_ix_pubkey_and_msg(&out_of_bounds).is_err());
}

#[test]
fn ed25519_program_id_is_the_native_verifier() {
    let expected = solana_pubkey::Pubkey::from_str("Ed25519SigVerify111111111111111111111111111").unwrap();
    assert_eq!(ed25519_program_id().to_bytes(), expected.to_bytes());
}

#[test]
fn commit_hash_is_sha256_of_the_commit_preimage() {
    let user = unique_key();
    let salt = [9u8; 32];
    let expected = solana_sha256_hasher::hashv(&[
        b"commit".as_ref(),
        7u64.to_le_bytes().as_ref(),
        user.to_bytes().as_ref(),
        42u64.to_le_bytes().as_ref(),
        &[1u8],
        salt.as_ref(),
    ])
    .to_bytes();
    let got = commit_hash(7, &user, 42, 1, &salt);
    assert_eq!(got, expected);
    assert_ne!(got, commit_hash(7, &user, 42, 0, &salt));
}

#[test]
fn pulse_bits_are_read_lsb_first() {
    let mut pulse = [0u8; 64];
    pulse[0] = 0b0000_0101;
    pulse[63] = 0b1000_0000;
    assert_eq!(get_pulse_bit(&pulse, 0), 1);
    assert_eq!(get_pulse_bit(&pulse, 1), 0);
    assert_eq!(get_pulse_bit(&pulse, 2), 1);
    assert_eq!(get_pulse_bit(&pulse, 511), 1);
    assert_eq!(get_pulse_bit(&pulse, 510), 0);
}
