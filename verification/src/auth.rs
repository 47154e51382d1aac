//! The authorization rule on privileged operations.
//!
//! Exactly one caller identity is fixed at genesis — the component's own
//! address — and is never reassigned. That identity is held as plain
//! data and compared against the authenticated identity of each incoming
//! privileged call; the host platform is responsible for authenticating
//! the caller's credential before handing its identity over.

use vstd::prelude::*;
use crate::address::ComponentAddress;
use crate::errors::Error;

verus! {

/// Restricts privileged operations to the one caller identity fixed at
/// genesis.
pub struct AuthorizationGate {
    pub fixed_identity: ComponentAddress,
}

impl AuthorizationGate {
    /// A gate admitting exactly `fixed_identity`.
    pub fn new(fixed_identity: ComponentAddress) -> (g: AuthorizationGate)
        ensures
            g.fixed_identity.encoded@ == fixed_identity.encoded@,
    {
        AuthorizationGate { fixed_identity }
    }

    /// Whether `caller` is the identity this gate admits.
    pub open spec fn admits(self, caller: ComponentAddress) -> bool {
        caller.encoded@ == self.fixed_identity.encoded@
    }

    /// Admits exactly the fixed identity; any other caller, including one
    /// that merely looks similar, is refused with `Unauthorized`.
    pub fn check(&self, caller: &ComponentAddress) -> (r: Result<(), Error>)
        ensures
            r is Ok <==> self.admits(*caller),
            r is Err ==> r == Err::<(), Error>(Error::Unauthorized),
    {
        if caller.encoded == self.fixed_identity.encoded {
            Ok(())
        } else {
            Err(Error::Unauthorized)
        }
    }
}

} // verus!
