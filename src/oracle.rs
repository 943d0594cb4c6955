//! Pulse publication by the configured oracle.
use vstd::prelude::*;

use crate::codec::{expected_pulse_msg, pulse_msg};
use crate::constants::LATE_PULSE_SAFETY_BUFFER_SLOTS;
use crate::ed25519::{attestation_error, check_attestation, Instruction};
use crate::error::TimlgError;
use crate::pubkey::Pubkey;
use crate::state::{round_step, Config, Round, RoundState};

verus! {

/// Whether `k` is the all-zero key, which marks an identity as unset.
pub open spec fn is_unset(k: Pubkey) -> bool {
    k@ == Seq::new(32, |i: int| 0u8)
}

/// Sets the oracle key allowed to publish pulses. Only the administrator may.
pub fn set_oracle_pubkey(cfg: &mut Config, admin: &Pubkey, oracle_pubkey: Pubkey) -> (r: Result<(), TimlgError>)
    ensures
        old(cfg).admin@ != admin@ ==> r == Err::<(), TimlgError>(TimlgError::Unauthorized)
            && *final(cfg) == *old(cfg),
        old(cfg).admin@ == admin@ ==> r is Ok && *final(cfg) == (Config {
            oracle_pubkey,
            ..*old(cfg)
        }),
{
    if !(cfg.admin == *admin) {
        return Err(TimlgError::Unauthorized);
    }
    cfg.oracle_pubkey = oracle_pubkey;
    Ok(())
}

/// The last slot before the reveal deadline at which a pulse is still
/// accepted is the one before this.
pub open spec fn pulse_cutoff(round: Round) -> int {
    if round.reveal_deadline_slot >= LATE_PULSE_SAFETY_BUFFER_SLOTS {
        round.reveal_deadline_slot - LATE_PULSE_SAFETY_BUFFER_SLOTS
    } else {
        0
    }
}

/// Why publishing `pulse` is refused, if it is.
pub open spec fn set_pulse_error(
    cfg: Config,
    round: Round,
    program_id: Pubkey,
    round_id: u64,
    pulse: Seq<u8>,
    tx: Seq<Instruction>,
    current_ix: usize,
    slot: u64,
) -> Option<TimlgError> {
    if cfg.paused {
        Some(TimlgError::Paused)
    } else if is_unset(cfg.oracle_pubkey) {
        Some(TimlgError::OracleNotSet)
    } else if round.round_id != round_id {
        Some(TimlgError::TicketPdaMismatch)
    } else if slot < round.commit_deadline_slot {
        Some(TimlgError::CommitClosed)
    } else if round.finalized {
        Some(TimlgError::RoundFinalized)
    } else if slot >= pulse_cutoff(round) {
        Some(TimlgError::PulseTooLate)
    } else if round.pulse_set {
        Some(TimlgError::PulseAlreadySet)
    } else if current_ix < 1 {
        Some(TimlgError::MissingOrInvalidEd25519Ix)
    } else {
        attestation_error(
            tx,
            current_ix - 1,
            cfg.oracle_pubkey@,
            pulse_msg(program_id@, round_id, round.pulse_index_target, pulse),
        )
    }
}

/// Publishes a round's pulse, authorised by the oracle's signature over the
/// canonical pulse message, attested by the instruction just before
/// instruction `current_ix` of transaction `tx`. Accepted once per round,
/// after the commit deadline and safely before the reveal deadline.
pub fn set_pulse_signed(
    cfg: &Config,
    round: &mut Round,
    program_id: &Pubkey,
    round_id: u64,
    pulse: [u8; 64],
    tx: &Vec<Instruction>,
    current_ix: usize,
    current_slot: u64,
) -> (r: Result<(), TimlgError>)
    ensures
        old(round).wf() ==> final(round).wf() && round_step(*old(round), *final(round)),
        match set_pulse_error(*cfg, *old(round), *program_id, round_id, pulse@, tx@, current_ix, current_slot) {
            Some(e) => r == Err::<(), TimlgError>(e) && *final(round) == *old(round),
            None => r is Ok && *final(round) == (Round {
                pulse,
                pulse_set: true,
                pulse_set_slot: current_slot,
                state: RoundState::PulseSet,
                ..*old(round)
            }),
        },
{
    if cfg.paused {
        return Err(TimlgError::Paused);
    }
    if cfg.oracle_pubkey.is_default() {
        return Err(TimlgError::OracleNotSet);
    }
    if round.round_id != round_id {
        return Err(TimlgError::TicketPdaMismatch);
    }
    if current_slot < round.commit_deadline_slot {
        return Err(TimlgError::CommitClosed);
    }
    if round.finalized {
        return Err(TimlgError::RoundFinalized);
    }
    let cutoff = round.reveal_deadline_slot.saturating_sub(LATE_PULSE_SAFETY_BUFFER_SLOTS);
    if current_slot >= cutoff {
        return Err(TimlgError::PulseTooLate);
    }
    if round.pulse_set {
        return Err(TimlgError::PulseAlreadySet);
    }
    if current_ix < 1 {
        return Err(TimlgError::MissingOrInvalidEd25519Ix);
    }
    let expected = expected_pulse_msg(program_id, round_id, round.pulse_index_target, &pulse);
    check_attestation(tx, current_ix - 1, &cfg.oracle_pubkey, expected.as_slice())?;
    round.pulse = pulse;
    round.pulse_set = true;
    round.pulse_set_slot = current_slot;
    round.state = RoundState::PulseSet;
    Ok(())
}

} // verus!
