//! The error taxonomy of the staking component.

use vstd::prelude::*;

verus! {

/// Why an operation was refused. Every error aborts the whole call: the
/// contracts of the operations guarantee that on an `Err` result no state
/// has changed.
#[derive(Clone, Copy, Debug, PartialEq, Eq, Structural)]
pub enum Error {
    /// A contribution, redemption or reward amount was not positive.
    InvalidAmount,
    /// A redemption asked for more shares than are outstanding.
    InsufficientShares,
    /// A reward was injected while no shares are outstanding.
    EmptyPool,
    /// A privileged call did not carry the required identity.
    Unauthorized,
}

} // verus!
