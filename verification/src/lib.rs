//! A single-asset staking vault.
//!
//! Depositors lock a base fungible asset in a pool and receive
//! proportional-claim shares; a privileged reward injection raises the
//! redemption value of outstanding shares without minting new ones.
//!
//! The accounting core lives in [`pool`]: share issuance, redemption and
//! reward injection over two counters (vault balance and share supply),
//! with all divisions floored toward zero. [`auth`] gates privileged calls
//! on a caller identity fixed at genesis. [`metadata`] derives the display
//! metadata of the share asset from the underlying asset's metadata, once,
//! at genesis. [`staking`] composes these into the public component and
//! returns the notification events each operation emits.
//!
//! Amounts are counted in the underlying asset's minimum representable
//! unit, so every quantity is a plain unsigned integer and the flooring
//! grid of the rounding policy is the integer grid.

pub mod address;
pub mod auth;
pub mod errors;
pub mod events;
pub mod math;
pub mod metadata;
pub mod pool;
pub mod staking;
pub mod vault;
