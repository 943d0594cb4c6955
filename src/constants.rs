//! Protocol constants.
use vstd::prelude::*;

verus! {

/// Minimum number of slots between the commit deadline and the reveal deadline.
pub const MIN_REVEAL_WINDOW_SLOTS: u64 = 60;

/// Slots after the reveal deadline after which an unpublished round can be refunded.
pub const REFUND_TIMEOUT_SLOTS: u64 = 150;

/// Default length of the commit window, in slots.
pub const DEFAULT_COMMIT_WINDOW_SLOTS: u64 = 1000;

/// Default length of the reveal window, in slots.
pub const DEFAULT_REVEAL_WINDOW_SLOTS: u64 = 1000;

/// Default grace period for claims before a sweep, in slots.
pub const DEFAULT_CLAIM_GRACE_SLOTS: u64 = 900;

/// A pulse must be published at least this many slots before the reveal deadline.
pub const LATE_PULSE_SAFETY_BUFFER_SLOTS: u64 = 50;

/// Default stake per ticket, in base units.
pub const DEFAULT_STAKE_AMOUNT: u64 = 1_000_000_000;

/// Default fee on minted rewards, in basis points.
pub const DEFAULT_REWARD_FEE_BPS: u16 = 100;

/// Initial version of every record.
pub const INITIAL_VERSION: u16 = 1;

/// First round id of a new registry.
pub const INITIAL_ROUND_ID: u64 = 0;

/// Largest number of entries in one batch.
pub const MAX_BATCH: usize = 16;

/// Largest number of oracles in the allowlist.
pub const MAX_ORACLES: usize = 16;

/// Basis points in one whole.
pub const BPS_DENOMINATOR: u64 = 10_000;

} // verus!
