//! The protocol's records: configuration, registry, rounds, tickets, escrow,
//! tokenomics, the oracle allowlist, and the payloads of batched requests.
use vstd::prelude::*;

use crate::pubkey::Pubkey;

verus! {

/// Source of truth for automatically numbered rounds.
#[derive(Clone, Copy, Debug)]
pub struct RoundRegistry {
    pub admin: Pubkey,
    pub next_round_id: u64,
    pub version: u16,
}

/// The protocol's singleton configuration.
#[derive(Clone, Copy, Debug)]
pub struct Config {
    pub admin: Pubkey,
    pub stake_amount: u64,
    pub commit_window_slots: u64,
    pub reveal_window_slots: u64,
    /// Slots after the reveal deadline during which winners may still claim.
    pub claim_grace_slots: u64,
    /// The only key allowed to publish pulses; all-zero while unset.
    pub oracle_pubkey: Pubkey,
    pub paused: bool,
    pub version: u16,
    pub timlg_mint: Pubkey,
    pub treasury: Pubkey,
    pub treasury_sol: Pubkey,
    pub sol_service_fee_lamports: u64,
}

/// Allowlist of oracle identities with an attestation threshold.
#[derive(Clone, Debug)]
pub struct OracleSet {
    pub admin: Pubkey,
    pub threshold: u8,
    pub oracles: Vec<Pubkey>,
    pub version: u16,
}

/// A user's pre-funded balance holder, which lets a relayer submit
/// pre-authorised requests on the user's behalf.
#[derive(Clone, Copy, Debug)]
pub struct UserEscrow {
    pub user: Pubkey,
    pub created_slot: u64,
    pub updated_slot: u64,
}

/// The phase of a round.
#[derive(Clone, Copy, Debug, PartialEq, Eq, Structural)]
pub enum RoundState {
    Announced,
    PulseSet,
    Finalized,
}

/// The rank of a phase in the order `Announced < PulseSet < Finalized`.
pub open spec fn phase_rank(s: RoundState) -> int {
    match s {
        RoundState::Announced => 0,
        RoundState::PulseSet => 1,
        RoundState::Finalized => 2,
    }
}

impl RoundState {
    /// The phase's numeric code.
    pub fn code(&self) -> (r: u8)
        ensures
            r == phase_rank(*self),
    {
        match self {
            RoundState::Announced => 0,
            RoundState::PulseSet => 1,
            RoundState::Finalized => 2,
        }
    }
}

/// One round of the game.
#[derive(Clone, Copy, Debug)]
pub struct Round {
    pub round_id: u64,
    pub state: RoundState,
    /// Vault of native currency.
    pub vault: Pubkey,
    pub pulse_index_target: u64,
    pub commit_deadline_slot: u64,
    pub reveal_deadline_slot: u64,
    pub created_slot: u64,
    pub pulse_set: bool,
    /// The 512-bit beacon value, all zero until set.
    pub pulse: [u8; 64],
    pub pulse_set_slot: u64,
    pub finalized: bool,
    pub finalized_slot: u64,
    pub swept: bool,
    pub swept_slot: u64,
    /// Vault of staked tokens.
    pub timlg_vault: Pubkey,
    pub committed_count: u64,
    pub revealed_count: u64,
    pub win_count: u64,
    /// Tickets classified by settlement.
    pub settled_count: u64,
    /// All committed tickets have been classified.
    pub token_settled: bool,
    pub token_settled_slot: u64,
}

impl Round {
    /// The round's internal invariant: the phase agrees with the flags, the
    /// flags only ever appear in lifecycle order, and settlement never runs
    /// ahead of commitments.
    pub open spec fn wf(&self) -> bool {
        &&& (self.state == RoundState::Announced) == !self.pulse_set
        &&& (self.state == RoundState::Finalized) == self.finalized
        &&& self.finalized ==> self.pulse_set
        &&& self.token_settled ==> self.finalized
        &&& self.settled_count <= self.committed_count
        &&& self.settled_count > 0 ==> self.finalized
        &&& self.token_settled ==> self.settled_count == self.committed_count
    }
}

/// What may change between two successive states of a round: the phase
/// never goes back, a published pulse never changes, and a finalized,
/// swept or settled round stays so.
pub open spec fn round_step(r0: Round, r1: Round) -> bool {
    &&& r1.round_id == r0.round_id
    &&& phase_rank(r0.state) <= phase_rank(r1.state)
    &&& r0.pulse_set ==> r1.pulse_set && r1.pulse@ == r0.pulse@
    &&& r0.finalized ==> r1.finalized
    &&& r0.swept ==> r1.swept
    &&& r0.token_settled ==> r1.token_settled
    &&& r1.commit_deadline_slot == r0.commit_deadline_slot
    &&& r1.reveal_deadline_slot == r0.reveal_deadline_slot
}

/// A staked, committed guess on one bit of a round's pulse, keyed by
/// `(round_id, user, nonce)`.
#[derive(Clone, Copy, Debug)]
pub struct Ticket {
    pub round_id: u64,
    pub user: Pubkey,
    pub nonce: u64,
    pub commitment: [u8; 32],
    pub stake_paid: bool,
    /// The stake was burned by settlement.
    pub stake_slashed: bool,
    /// Settlement has classified this ticket.
    pub processed: bool,
    pub revealed: bool,
    pub guess: u8,
    pub win: bool,
    /// The pulse bit this ticket bets on, fixed at commit time.
    pub bit_index: u16,
    pub claimed: bool,
    pub claimed_slot: u64,
    pub created_slot: u64,
    pub revealed_slot: u64,
}

/// Reward parameters.
#[derive(Clone, Copy, Debug)]
pub struct Tokenomics {
    pub admin: Pubkey,
    /// Fee on minted rewards, in basis points (at most 10000).
    pub reward_fee_bps: u16,
    pub reward_fee_pool: Pubkey,
    pub replication_pool: Pubkey,
    pub version: u16,
}

/// One entry of a batched commit.
#[derive(Clone, Copy, Debug)]
pub struct CommitEntry {
    pub nonce: u64,
    pub commitment: [u8; 32],
}

/// One entry of a batched reveal.
#[derive(Clone, Copy, Debug)]
pub struct RevealEntry {
    pub nonce: u64,
    pub guess: u8,
    pub salt: [u8; 32],
}

/// One entry of a pre-authorised batched commit.
#[derive(Clone, Copy, Debug)]
pub struct CommitSignedEntry {
    pub user: Pubkey,
    pub nonce: u64,
    pub commitment: [u8; 32],
}

/// One entry of a pre-authorised batched reveal.
#[derive(Clone, Copy, Debug)]
pub struct RevealSignedEntry {
    pub user: Pubkey,
    pub nonce: u64,
    pub guess: u8,
    pub salt: [u8; 32],
}

} // verus!
