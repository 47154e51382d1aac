//! Plain-data stand-ins for the ledger's addresses.
//!
//! The hosting platform allocates addresses and produces their canonical
//! human-readable encoding; the library only stores, compares and embeds
//! that encoding, so an address is carried here as its encoded form.

use vstd::prelude::*;

verus! {

/// The canonical encoding of a fungible asset's address.
pub struct ResourceAddress {
    pub encoded: String,
}

impl ResourceAddress {
    /// An address made from its canonical encoding.
    pub fn new(encoded: String) -> (r: ResourceAddress)
        ensures
            r.encoded@ == encoded@,
    {
        ResourceAddress { encoded }
    }
}

/// The canonical encoding of a component's address.
pub struct ComponentAddress {
    pub encoded: String,
}

impl ComponentAddress {
    /// An address made from its canonical encoding.
    pub fn new(encoded: String) -> (r: ComponentAddress)
        ensures
            r.encoded@ == encoded@,
    {
        ComponentAddress { encoded }
    }
}

} // verus!
