//! The commitment / reveal codec: the byte layouts that the protocol hashes
//! or expects signed, and the pulse bit that a ticket bets on.
use vstd::prelude::*;
use vstd::bytes::{spec_u64_to_le_bytes, u64_to_le_bytes};
use vstd::string::StringSliceAdditionalSpecFns;

use crate::pubkey::Pubkey;

verus! {

/// Number of bits in a pulse value.
pub const PULSE_BITS: u16 = 512;

/// The SHA-256 digest of a byte string.
pub uninterp spec fn sha256_digest(data: Seq<u8>) -> Seq<u8>;

/// Relies on solana_sha256_hasher::hashv: the SHA-256 digest of its input,
/// which depends on the bytes alone.
#[verifier::external_body]
fn sha256(data: &[u8]) -> (r: [u8; 32])
    ensures
        r@ == sha256_digest(data@),
{
    solana_sha256_hasher::hashv(&[data]).to_bytes()
}

/// Appends `s` to `v`.
pub fn append_bytes(v: &mut Vec<u8>, s: &[u8])
    ensures
        final(v)@ == old(v)@ + s@,
{
    let mut i: usize = 0;
    while i < s.len()
        invariant
            i <= s@.len(),
            v@ == old(v)@ + s@.subrange(0, i as int),
        decreases s@.len() - i,
    {
        v.push(s[i]);
        i = i + 1;
        assert(s@.subrange(0, i as int) =~= s@.subrange(0, i - 1) + seq![s@[i - 1]]);
    }
    assert(s@.subrange(0, s@.len() as int) =~= s@);
}

/// The bytes hashed to pick a ticket's bit.
pub open spec fn bit_index_preimage(round_id: u64, user: Seq<u8>, nonce: u64) -> Seq<u8> {
    "bitindex".spec_bytes() + spec_u64_to_le_bytes(round_id) + user
        + spec_u64_to_le_bytes(nonce)
}

/// The bit of the pulse that ticket `(round_id, user, nonce)` bets on: the
/// first two digest bytes read as a little-endian `u16`, modulo 512.
pub open spec fn bit_index_of(round_id: u64, user: Seq<u8>, nonce: u64) -> u16 {
    let h = sha256_digest(bit_index_preimage(round_id, user, nonce));
    ((h[0] + 256 * h[1]) % 512) as u16
}

/// The bytes hashed into a ticket's commitment.
pub open spec fn commit_preimage(
    round_id: u64,
    user: Seq<u8>,
    nonce: u64,
    guess: u8,
    salt: Seq<u8>,
) -> Seq<u8> {
    "commit".spec_bytes() + spec_u64_to_le_bytes(round_id) + user
        + spec_u64_to_le_bytes(nonce) + seq![guess] + salt
}

/// The commitment that binds a guess and a salt to a ticket.
pub open spec fn commitment_of(
    round_id: u64,
    user: Seq<u8>,
    nonce: u64,
    guess: u8,
    salt: Seq<u8>,
) -> Seq<u8> {
    sha256_digest(commit_preimage(round_id, user, nonce, guess, salt))
}

/// Bit `i` of a pulse: bit `i % 8` (from the least significant) of byte `i / 8`.
pub open spec fn pulse_bit(pulse: Seq<u8>, i: int) -> u8 {
    (pulse[i / 8] >> ((i % 8) as u8)) & 1u8
}

/// Derives the bit of the pulse that ticket `(round_id, user, nonce)` bets on.
pub fn derive_bit_index(round_id: u64, user: &Pubkey, nonce: u64) -> (r: u16)
    ensures
        r == bit_index_of(round_id, user@, nonce),
        r < PULSE_BITS,
{
    let mut pre: Vec<u8> = Vec::new();
    append_bytes(&mut pre, "bitindex".as_bytes());
    append_bytes(&mut pre, u64_to_le_bytes(round_id).as_slice());
    append_bytes(&mut pre, user.bytes.as_slice());
    append_bytes(&mut pre, u64_to_le_bytes(nonce).as_slice());
    assert(pre@ == bit_index_preimage(round_id, user@, nonce));
    let h = sha256(pre.as_slice());
    let lo = h[0] as u16;
    let hi = h[1] as u16;
    (lo + hi * 256) % 512
}

/// Computes the commitment that binds `guess` and `salt` to ticket
/// `(round_id, user, nonce)`.
pub fn commit_hash(round_id: u64, user: &Pubkey, nonce: u64, guess: u8, salt: &[u8; 32]) -> (r: [u8; 32])
    ensures
        r@ == commitment_of(round_id, user@, nonce, guess, salt@),
{
    let mut pre: Vec<u8> = Vec::new();
    append_bytes(&mut pre, "commit".as_bytes());
    append_bytes(&mut pre, u64_to_le_bytes(round_id).as_slice());
    append_bytes(&mut pre, user.bytes.as_slice());
    append_bytes(&mut pre, u64_to_le_bytes(nonce).as_slice());
    pre.push(guess);
    append_bytes(&mut pre, salt.as_slice());
    assert(pre@ =~= commit_preimage(round_id, user@, nonce, guess, salt@));
    sha256(pre.as_slice())
}

/// Reads bit `bit_index` of `pulse`.
pub fn get_pulse_bit(pulse: &[u8; 64], bit_index: u16) -> (r: u8)
    requires
        bit_index < PULSE_BITS,
    ensures
        r == pulse_bit(pulse@, bit_index as int),
        r <= 1,
{
    let idx = bit_index as usize;
    let byte_i = idx / 8;
    let bit_i = (idx % 8) as u8;
    let b = pulse[byte_i];
    let r = (b >> bit_i) & 1;
    assert((b >> bit_i) & 1u8 <= 1u8) by (bit_vector);
    r
}

/// The message a user signs to authorise a relayed commit.
pub open spec fn commit_msg(
    program_id: Seq<u8>,
    round_id: u64,
    user: Seq<u8>,
    nonce: u64,
    commitment: Seq<u8>,
) -> Seq<u8> {
    "timlg-protocol:commit_v1".spec_bytes() + program_id + spec_u64_to_le_bytes(round_id) + user
        + spec_u64_to_le_bytes(nonce) + commitment
}

/// The message a user signs to authorise a relayed reveal.
pub open spec fn reveal_msg(
    program_id: Seq<u8>,
    round_id: u64,
    user: Seq<u8>,
    nonce: u64,
    guess: u8,
    salt: Seq<u8>,
) -> Seq<u8> {
    "timlg-protocol:reveal_v1".spec_bytes() + program_id + spec_u64_to_le_bytes(round_id) + user
        + spec_u64_to_le_bytes(nonce) + seq![guess] + salt
}

/// The message the oracle signs to publish a round's pulse.
pub open spec fn pulse_msg(
    program_id: Seq<u8>,
    round_id: u64,
    pulse_index_target: u64,
    pulse: Seq<u8>,
) -> Seq<u8> {
    "timlg-protocol:pulse_v1".spec_bytes() + program_id + spec_u64_to_le_bytes(round_id)
        + spec_u64_to_le_bytes(pulse_index_target) + pulse
}

/// Builds the canonical commit message.
pub fn expected_commit_msg(
    program_id: &Pubkey,
    round_id: u64,
    user: &Pubkey,
    nonce: u64,
    commitment: &[u8; 32],
) -> (r: Vec<u8>)
    ensures
        r@ == commit_msg(program_id@, round_id, user@, nonce, commitment@),
{
    let mut v: Vec<u8> = Vec::new();
    append_bytes(&mut v, "timlg-protocol:commit_v1".as_bytes());
    append_bytes(&mut v, program_id.bytes.as_slice());
    append_bytes(&mut v, u64_to_le_bytes(round_id).as_slice());
    append_bytes(&mut v, user.bytes.as_slice());
    append_bytes(&mut v, u64_to_le_bytes(nonce).as_slice());
    append_bytes(&mut v, commitment.as_slice());
    v
}

/// Builds the canonical reveal message.
pub fn expected_reveal_msg(
    program_id: &Pubkey,
    round_id: u64,
    user: &Pubkey,
    nonce: u64,
    guess: u8,
    salt: &[u8; 32],
) -> (r: Vec<u8>)
    ensures
        r@ == reveal_msg(program_id@, round_id, user@, nonce, guess, salt@),
{
    let mut out: Vec<u8> = Vec::new();
    append_bytes(&mut out, "timlg-protocol:reveal_v1".as_bytes());
    append_bytes(&mut out, program_id.bytes.as_slice());
    append_bytes(&mut out, u64_to_le_bytes(round_id).as_slice());
    append_bytes(&mut out, user.bytes.as_slice());
    append_bytes(&mut out, u64_to_le_bytes(nonce).as_slice());
    out.push(guess);
    append_bytes(&mut out, salt.as_slice());
    assert(out@ =~= reveal_msg(program_id@, round_id, user@, nonce, guess, salt@));
    out
}

/// Builds the canonical pulse message.
pub fn expected_pulse_msg(
    program_id: &Pubkey,
    round_id: u64,
    pulse_index_target: u64,
    pulse: &[u8; 64],
) -> (r: Vec<u8>)
    ensures
        r@ == pulse_msg(program_id@, round_id, pulse_index_target, pulse@),
{
    let mut out: Vec<u8> = Vec::new();
    append_bytes(&mut out, "timlg-protocol:pulse_v1".as_bytes());
    append_bytes(&mut out, program_id.bytes.as_slice());
    append_bytes(&mut out, u64_to_le_bytes(round_id).as_slice());
    append_bytes(&mut out, u64_to_le_bytes(pulse_index_target).as_slice());
    append_bytes(&mut out, pulse.as_slice());
    out
}

} // verus!
