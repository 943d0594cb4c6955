use vstd::prelude::*;

verus! {

/// Every way in which an operation of the protocol can be refused.
#[derive(Clone, Copy, Debug, PartialEq, Eq, Structural)]
pub enum TimlgError {
    /// Unauthorized.
    Unauthorized,
    /// Protocol paused.
    Paused,
    /// Invalid deadlines.
    InvalidDeadlines,
    /// Commit window closed.
    CommitClosed,
    /// Reveal window closed.
    RevealClosed,
    /// Pulse not set.
    PulseNotSet,
    /// Round pulse already set.
    PulseAlreadySet,
    /// Round already finalized.
    AlreadyFinalized,
    /// Round not finalized.
    NotFinalized,
    /// Cannot finalize yet.
    CannotFinalizeYet,
    /// Already revealed.
    AlreadyRevealed,
    /// Commitment mismatch.
    CommitmentMismatch,
    /// Invalid guess (must be 0/1).
    InvalidGuess,
    /// Too many entries.
    TooManyEntries,
    /// Ticket PDA mismatch.
    TicketPdaMismatch,
    /// Ticket already exists.
    TicketAlreadyExists,
    /// Ticket not owned by program.
    TicketNotOwnedByProgram,
    /// Vault PDA mismatch.
    VaultPdaMismatch,
    /// Insufficient vault funds.
    InsufficientVaultFunds,
    /// Missing or invalid ed25519 verify instruction.
    MissingOrInvalidEd25519Ix,
    /// Ed25519 pubkey mismatch.
    Ed25519PubkeyMismatch,
    /// Ed25519 message mismatch.
    Ed25519MessageMismatch,
    /// Oracle pubkey not set.
    OracleNotSet,
    /// Bit index mismatch.
    BitIndexMismatch,
    /// Failed to borrow account data.
    AccountBorrowFailed,
    /// Round is finalized.
    RoundFinalized,
    /// Commit not allowed after pulse is set.
    CommitAfterPulseSet,
    /// Sweep not allowed yet (grace period not elapsed).
    SweepTooEarly,
    /// Vault already swept for this round.
    AlreadySwept,
    /// Cannot claim after vault sweep.
    ClaimAfterSweep,
    /// Invalid stake amount.
    InvalidStakeAmount,
    /// Invalid window.
    InvalidWindow,
    /// Missing bump.
    MissingBump,
    /// Math overflow.
    MathOverflow,
    /// timlg_mint does not match config.
    TIMLGMintMismatch,
    /// Invalid user TIMLG token account.
    InvalidUserTIMLGAta,
    /// Ticket not revealed.
    TicketNotRevealed,
    /// Not a winner.
    NotWinner,
    /// Already claimed.
    AlreadyClaimed,
    /// Stake not paid for this ticket.
    StakeNotPaid,
    /// Insufficient escrow funds.
    InsufficientEscrow,
    /// Signed batch contains mixed users.
    SignedBatchMixedUsers,
    /// Round tokens not settled yet.
    RoundNotSettled,
    /// Too early to settle round tokens.
    SettleTooEarly,
    /// OracleSet is full.
    OracleSetFull,
    /// Oracle already exists in allowlist.
    OracleAlreadyExists,
    /// Oracle not found in allowlist.
    OracleNotFound,
    /// Invalid threshold.
    InvalidThreshold,
    /// Threshold exceeds current oracle count.
    ThresholdExceedsOracleCount,
    /// Invalid fee bps (must be 0..=10_000)..
    InvalidFeeBps,
    /// Invalid basis points (must be <= 10000).
    InvalidBps,
    /// Refund too early.
    RefundTooEarly,
    /// Vault not empty.
    VaultNotEmpty,
    /// Reveal window too short.
    RevealWindowTooShort,
    /// Tokenomics not initialized.
    TokenomicsNotInitialized,
    /// Round not swept.
    NotSwept,
    /// Round tokens not settled.
    RoundTokensNotSettled,
    /// Round tokens already settled.
    RoundTokensAlreadySettled,
    /// Ticket already processed.
    TicketAlreadyProcessed,
    /// Ticket not processed yet.
    TicketNotProcessed,
    /// Winner must claim reward first.
    WinnerMustClaimFirst,
    /// Pulse too late (liveness hazard).
    PulseTooLate,
}

} // verus!
