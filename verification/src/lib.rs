//! Venue-agnostic construction of transaction messages for automated-market-maker
//! pools and staking programs.
//!
//! Callers describe intent with the canonical asset model in [`asset`]; the
//! per-venue adapters in [`junoswap`] and [`osmosis`] turn that intent into the
//! venue's outbound message, checking asset kinds, attached funds and arithmetic
//! along the way. Nothing here submits a message: every operation returns the
//! unsubmitted payload for a transport layer to encode and send.

pub mod asset;
pub mod error;
pub mod msg;
pub mod pool;
pub mod staking;
pub mod junoswap;
pub mod osmosis;

pub use error::CwDexError;
pub use pool::Pool;
pub use staking::Staking;
