//! The holder of the underlying asset balance.

use vstd::prelude::*;

verus! {

/// Opaque holder of the underlying asset. It exposes deposit, withdraw
/// and the current balance, and has no accounting logic of its own;
/// [`crate::pool::Pool`] is its sole caller.
pub struct AssetVault {
    pub balance: u64,
}

impl AssetVault {
    /// A vault holding none of the underlying asset.
    pub fn empty() -> (v: AssetVault)
        ensures
            v.balance == 0,
    {
        AssetVault { balance: 0 }
    }

    /// The amount of the underlying asset currently held.
    pub fn balance(&self) -> (r: u64)
        ensures
            r == self.balance,
    {
        self.balance
    }

    /// Puts `amount` of the underlying asset into the vault.
    pub fn deposit(&mut self, amount: u64)
        requires
            old(self).balance + amount <= u64::MAX,
        ensures
            final(self).balance == old(self).balance + amount,
    {
        self.balance = self.balance + amount;
    }

    /// Takes `amount` of the underlying asset out of the vault and
    /// returns it.
    pub fn withdraw(&mut self, amount: u64) -> (r: u64)
        requires
            amount <= old(self).balance,
        ensures
            r == amount,
            final(self).balance == old(self).balance - amount,
    {
        self.balance = self.balance - amount;
        amount
    }
}

} // verus!
