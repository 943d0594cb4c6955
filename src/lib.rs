//! A commit-reveal prediction game settled against a published randomness
//! beacon value ("pulse"): the round state machine, ticket intake, reveal
//! verification, settlement, claims, sweep and refund, as pure state
//! transitions over plain values.

pub mod admin;
pub mod book;
pub mod bytes;
pub mod codec;
pub mod commit;
pub mod constants;
pub mod ed25519;
pub mod error;
pub mod escrow;
pub mod laws;
pub mod lifecycle;
pub mod oracle;
pub mod oracle_set;
pub mod pubkey;
pub mod reveals;
pub mod reward;
pub mod state;

pub use error::TimlgError;
pub use pubkey::Pubkey;
