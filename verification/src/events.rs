//! The notification events the component emits.
//!
//! Each operation returns the event it emits alongside its result, for
//! the hosting environment to publish; the library keeps no event log of
//! its own. An aborted operation returns an error and no event.

use vstd::prelude::*;
use crate::address::ResourceAddress;

verus! {

/// Emitted once, at genesis: a new staking component exists for the
/// given underlying asset.
pub struct StakingCreatedEvent {
    pub token: ResourceAddress,
}

/// Emitted by a successful contribution; `amount` is the amount of the
/// underlying asset contributed.
#[derive(Clone, Copy, Debug, PartialEq, Eq, Structural)]
pub struct AddStakeEvent {
    pub amount: u64,
}

/// Emitted by a successful redemption; `amount` is the amount of shares
/// redeemed.
#[derive(Clone, Copy, Debug, PartialEq, Eq, Structural)]
pub struct RemoveStakeEvent {
    pub amount: u64,
}

/// Emitted by a successful reward injection; `amount` is the amount of
/// the underlying asset injected.
#[derive(Clone, Copy, Debug, PartialEq, Eq, Structural)]
pub struct DepositRewardsEvent {
    pub amount: u64,
}

} // verus!
