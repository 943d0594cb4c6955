//! The signature-evidence adapter: reads a signature-verification instruction
//! of the current transaction and hands back the (signer, message) pair that
//! it attests, provided it refers only to its own data.
use vstd::prelude::*;

use crate::bytes::bytes_eq;
use crate::error::TimlgError;
use crate::pubkey::Pubkey;

verus! {

/// One instruction of a transaction: the program it calls and its data.
pub struct Instruction {
    pub program_id: Pubkey,
    pub data: Vec<u8>,
}

/// The address of the native ed25519 signature-verification program.
pub open spec fn ed25519_program_bytes() -> Seq<u8> {
    seq![
        3u8, 125, 70, 214, 124, 147, 251, 190, 18, 249, 66, 143, 131, 141, 64, 255,
        5, 112, 116, 73, 39, 244, 138, 100, 252, 202, 112, 68, 128, 0, 0, 0,
    ]
}

/// The ed25519 signature-verification program's address.
pub fn ed25519_program_id() -> (r: Pubkey)
    ensures
        r@ == ed25519_program_bytes(),
{
    let r = Pubkey::new_from_array([
        3, 125, 70, 214, 124, 147, 251, 190, 18, 249, 66, 143, 131, 141, 64, 255,
        5, 112, 116, 73, 39, 244, 138, 100, 252, 202, 112, 68, 128, 0, 0, 0,
    ]);
    assert(r@ =~= ed25519_program_bytes());
    r
}

/// The little-endian `u16` stored at `data[off..off + 2]`.
pub open spec fn u16_at(data: Seq<u8>, off: int) -> int {
    data[off] + 256 * data[off + 1]
}

/// The instruction index meaning "this same instruction".
pub const SELF_INSTRUCTION: u16 = 0xffff;

/// Whether `data` holds exactly one signature whose signature, key and
/// message all lie in `data` itself, with key and message in bounds.
pub open spec fn ed25519_data_valid(data: Seq<u8>) -> bool {
    &&& data.len() >= 16
    &&& data[0] == 1
    &&& u16_at(data, 4) == SELF_INSTRUCTION
    &&& u16_at(data, 8) == SELF_INSTRUCTION
    &&& u16_at(data, 14) == SELF_INSTRUCTION
    &&& u16_at(data, 6) + 32 <= data.len()
    &&& u16_at(data, 10) + u16_at(data, 12) <= data.len()
}

/// Whether `ix` is a self-contained single-signature ed25519 verification.
pub open spec fn ed25519_ix_valid(ix: &Instruction) -> bool {
    ix.program_id@ == ed25519_program_bytes() && ed25519_data_valid(ix.data@)
}

/// The signer key that a valid verification instruction attests.
pub open spec fn ed25519_signer(data: Seq<u8>) -> Seq<u8> {
    data.subrange(u16_at(data, 6), u16_at(data, 6) + 32)
}

/// The message that a valid verification instruction attests.
pub open spec fn ed25519_message(data: Seq<u8>) -> Seq<u8> {
    data.subrange(u16_at(data, 10), u16_at(data, 10) + u16_at(data, 12))
}

fn read_u16_le(data: &Vec<u8>, off: usize) -> (r: u16)
    requires
        off + 2 <= data@.len(),
    ensures
        r == u16_at(data@, off as int),
{
    let n = data.len();
    assert(off + 1 < n);
    let lo = data[off] as u16;
    let hi = data[off + 1] as u16;
    lo + hi * 256
}

fn copy_range(data: &Vec<u8>, start: usize, len: usize) -> (r: Vec<u8>)
    requires
        start + len <= data@.len(),
    ensures
        r@ == data@.subrange(start as int, start + len),
{
    let n = data.len();
    let mut out: Vec<u8> = Vec::new();
    let mut i: usize = 0;
    while i < len
        invariant
            i <= len,
            n == data@.len(),
            start + len <= data@.len(),
            out@ == data@.subrange(start as int, start + i),
        decreases len - i,
    {
        out.push(data[start + i]);
        i = i + 1;
        assert(out@ =~= data@.subrange(start as int, start + i));
    }
    out
}

/// Extracts the (signer, message) pair from a signature-verification
/// instruction, refusing any instruction that is not a self-contained
/// single-signature ed25519 verification.
pub fn parse_ed25519_ix_pubkey_and_msg(ix: &Instruction) -> (r: Result<(Pubkey, Vec<u8>), TimlgError>)
    ensures
        r is Ok <==> ed25519_ix_valid(ix),
        r matches Ok((pk, msg)) ==> pk@ == ed25519_signer(ix.data@) && msg@ == ed25519_message(
            ix.data@,
        ),
        r matches Err(e) ==> e == TimlgError::MissingOrInvalidEd25519Ix,
{
    let expected = ed25519_program_id();
    if !(ix.program_id == expected) {
        return Err(TimlgError::MissingOrInvalidEd25519Ix);
    }
    let data = &ix.data;
    if data.len() < 16 {
        return Err(TimlgError::MissingOrInvalidEd25519Ix);
    }
    if data[0] != 1 {
        return Err(TimlgError::MissingOrInvalidEd25519Ix);
    }
    let sig_ix = read_u16_le(data, 4);
    let pk_ix = read_u16_le(data, 8);
    let msg_ix = read_u16_le(data, 14);
    if sig_ix != SELF_INSTRUCTION || pk_ix != SELF_INSTRUCTION || msg_ix != SELF_INSTRUCTION {
        return Err(TimlgError::MissingOrInvalidEd25519Ix);
    }
    let pk_off = read_u16_le(data, 6) as usize;
    let msg_off = read_u16_le(data, 10) as usize;
    let msg_sz = read_u16_le(data, 12) as usize;
    if pk_off + 32 > data.len() {
        return Err(TimlgError::MissingOrInvalidEd25519Ix);
    }
    if msg_off + msg_sz > data.len() {
        return Err(TimlgError::MissingOrInvalidEd25519Ix);
    }
    let mut pk_bytes: [u8; 32] = [0u8; 32];
    let mut i: usize = 0;
    while i < 32
        invariant
            i <= 32,
            pk_off + 32 <= data@.len(),
            data@.len() <= usize::MAX,
            forall|j: int| 0 <= j < i ==> pk_bytes@[j] == data@[pk_off + j],
        decreases 32 - i,
    {
        pk_bytes[i] = data[pk_off + i];
        i = i + 1;
    }
    assert(pk_bytes@ =~= data@.subrange(pk_off as int, pk_off + 32));
    let msg = copy_range(data, msg_off, msg_sz);
    Ok((Pubkey::new_from_array(pk_bytes), msg))
}

/// Checks that `ix` attests a signature by `expected_pubkey` over exactly
/// `expected_msg`.
pub fn assert_ed25519_ix_matches(ix: &Instruction, expected_pubkey: &Pubkey, expected_msg: &[u8]) -> (r: Result<(), TimlgError>)
    ensures
        r is Ok <==> ed25519_ix_valid(ix) && ed25519_signer(ix.data@) == expected_pubkey@
            && ed25519_message(ix.data@) == expected_msg@,
        r == Err::<(), TimlgError>(TimlgError::MissingOrInvalidEd25519Ix) <==> !ed25519_ix_valid(ix),
        r == Err::<(), TimlgError>(TimlgError::Ed25519PubkeyMismatch) <==> ed25519_ix_valid(ix)
            && ed25519_signer(ix.data@) != expected_pubkey@,
        r == Err::<(), TimlgError>(TimlgError::Ed25519MessageMismatch) <==> ed25519_ix_valid(ix)
            && ed25519_signer(ix.data@) == expected_pubkey@ && ed25519_message(ix.data@)
            != expected_msg@,
{
    let (pk, msg) = match parse_ed25519_ix_pubkey_and_msg(ix) {
        Ok(p) => p,
        Err(e) => {
            return Err(e);
        },
    };
    if !(pk == *expected_pubkey) {
        return Err(TimlgError::Ed25519PubkeyMismatch);
    }
    if !bytes_eq(msg.as_slice(), expected_msg) {
        return Err(TimlgError::Ed25519MessageMismatch);
    }
    Ok(())
}

/// Why the attestation expected at position `idx` of the transaction `tx`
/// does not show `signer` signing exactly `msg`, if it does not.
pub open spec fn attestation_error(
    tx: Seq<Instruction>,
    idx: int,
    signer: Seq<u8>,
    msg: Seq<u8>,
) -> Option<TimlgError> {
    if idx < 0 || idx >= tx.len() {
        Some(TimlgError::MissingOrInvalidEd25519Ix)
    } else if !ed25519_ix_valid(&tx[idx]) {
        Some(TimlgError::MissingOrInvalidEd25519Ix)
    } else if ed25519_signer(tx[idx].data@) != signer {
        Some(TimlgError::Ed25519PubkeyMismatch)
    } else if ed25519_message(tx[idx].data@) != msg {
        Some(TimlgError::Ed25519MessageMismatch)
    } else {
        None
    }
}

/// Checks that instruction `idx` of transaction `tx` attests a signature by
/// `signer` over exactly `msg`.
pub fn check_attestation(tx: &Vec<Instruction>, idx: usize, signer: &Pubkey, msg: &[u8]) -> (r: Result<(), TimlgError>)
    ensures
        match attestation_error(tx@, idx as int, signer@, msg@) {
            Some(e) => r == Err::<(), TimlgError>(e),
            None => r is Ok,
        },
{
    if idx >= tx.len() {
        return Err(TimlgError::MissingOrInvalidEd25519Ix);
    }
    assert_ed25519_ix_matches(&tx[idx], signer, msg)
}

} // verus!
