//! The share-accounting engine.
//!
//! A pool tracks two counters: the vault balance (underlying asset held)
//! and the share supply (claims outstanding). Three operations mutate
//! them — contribution, redemption and reward injection — and every
//! division floors toward zero: a contribution can never mint excess
//! shares and a redemption can never overpay, so residual fractions
//! accrue to the pool and benefit the remaining holders.

use vstd::prelude::*;
use vstd::arithmetic::div_mod::lemma_div_multiples_vanish;
use vstd::arithmetic::mul::lemma_mul_is_commutative;
use crate::errors::Error;
use crate::math::lemma_div_mul_le;
use crate::math::lemma_mul_div_le;
use crate::math::lemma_partial_redeem;
use crate::math::lemma_round_trip_amount;
use crate::math::mul_div_floor;
use crate::vault::AssetVault;

verus! {

/// The accounting unit: the vault of underlying asset and the total of
/// outstanding shares. Shares are fungible and carry no identity beyond
/// quantity; no per-holder ledger exists.
pub struct Pool {
    pub vault: AssetVault,
    pub share_supply: u64,
}

/// `p`'s per-share value is at most `q`'s, stated cross-multiplied so
/// that it needs no division: `p.balance / p.supply <= q.balance /
/// q.supply` for pools with positive supply.
pub open spec fn per_share_value_le(p: Pool, q: Pool) -> bool {
    p.vault.balance as int * q.share_supply as int <= q.vault.balance as int
        * p.share_supply as int
}

impl Pool {
    /// The pool's invariant: shares and balance are zero together (a pool
    /// returns to the bootstrap state only when fully drained), and the
    /// balance always covers the supply — the per-share value never falls
    /// below the 1:1 bootstrap rate.
    pub open spec fn wf(self) -> bool {
        &&& (self.share_supply == 0 <==> self.vault.balance == 0)
        &&& self.share_supply <= self.vault.balance
    }

    /// Shares minted for a contribution of `amount`: `amount` itself on
    /// an empty pool (the 1:1 bootstrap rate), else
    /// `floor(amount * supply / balance)`.
    pub open spec fn contribute_shares(self, amount: int) -> int {
        if self.share_supply == 0 {
            amount
        } else {
            amount * self.share_supply as int / self.vault.balance as int
        }
    }

    /// The pool after a contribution of `amount`.
    pub open spec fn after_contribute(self, amount: int) -> Pool {
        Pool {
            vault: AssetVault { balance: (self.vault.balance + amount) as u64 },
            share_supply: (self.share_supply + self.contribute_shares(amount)) as u64,
        }
    }

    /// Underlying asset paid out for redeeming `shares`:
    /// `floor(shares * balance / supply)`.
    pub open spec fn redeem_amount(self, shares: int) -> int {
        shares * self.vault.balance as int / self.share_supply as int
    }

    /// The pool after a redemption of `shares`.
    pub open spec fn after_redeem(self, shares: int) -> Pool {
        Pool {
            vault: AssetVault {
                balance: (self.vault.balance - self.redeem_amount(shares)) as u64,
            },
            share_supply: (self.share_supply - shares) as u64,
        }
    }

    /// The pool after a reward injection of `amount`: the balance grows,
    /// the supply stands.
    pub open spec fn after_inject(self, amount: int) -> Pool {
        Pool {
            vault: AssetVault { balance: (self.vault.balance + amount) as u64 },
            share_supply: self.share_supply,
        }
    }

    /// An empty pool, the state at genesis before the first contribution.
    pub fn empty() -> (p: Pool)
        ensures
            p.wf(),
            p.vault.balance == 0,
            p.share_supply == 0,
    {
        Pool { vault: AssetVault::empty(), share_supply: 0 }
    }

    /// Locks `amount` of the underlying asset and mints the proportional
    /// amount of shares, at the 1:1 bootstrap rate when the pool is
    /// empty. Fails with `InvalidAmount` exactly when `amount` is zero,
    /// and then changes nothing.
    pub fn contribute(&mut self, amount: u64) -> (r: Result<u64, Error>)
        requires
            old(self).wf(),
            amount > 0 ==> old(self).vault.balance + amount <= u64::MAX,
        ensures
            final(self).wf(),
            r is Ok <==> amount > 0,
            r is Err ==> r == Err::<u64, Error>(Error::InvalidAmount)
                && *final(self) == *old(self),
            r matches Ok(shares) ==> {
                &&& shares as int == old(self).contribute_shares(amount as int)
                &&& *final(self) == old(self).after_contribute(amount as int)
                &&& shares <= amount
                &&& (old(self).share_supply == 0 ==> shares == amount
                    && final(self).vault.balance == amount)
                &&& (old(self).share_supply > 0 ==> per_share_value_le(*old(self), *final(self)))
            },
    {
        if amount == 0 {
            return Err(Error::InvalidAmount);
        }
        let ghost b = self.vault.balance as int;
        let ghost s = self.share_supply as int;
        let shares: u64;
        if self.share_supply == 0 {
            shares = amount;
        } else {
            proof {
                lemma_mul_div_le(amount as int, s, b);
            }
            shares = mul_div_floor(amount, self.share_supply, self.vault.balance);
            proof {
                lemma_div_mul_le(amount as int * s, b);
                lemma_mul_is_commutative(shares as int, b);
                assert(b * (s + shares as int) <= (b + amount as int) * s) by (nonlinear_arith)
                    requires
                        shares as int * b <= amount as int * s,
                        0 <= b,
                        0 <= s,
                ;
            }
        }
        self.vault.deposit(amount);
        self.share_supply = self.share_supply + shares;
        Ok(shares)
    }

    /// Burns `shares` and pays out the proportional amount of the
    /// underlying asset. Fails with `InvalidAmount` exactly when `shares`
    /// is zero and with `InsufficientShares` exactly when `shares`
    /// exceeds the supply, and then changes nothing. Redeeming the whole
    /// supply drains the vault exactly.
    pub fn redeem(&mut self, shares: u64) -> (r: Result<u64, Error>)
        requires
            old(self).wf(),
        ensures
            final(self).wf(),
            r is Ok <==> 0 < shares <= old(self).share_supply,
            shares == 0 ==> r == Err::<u64, Error>(Error::InvalidAmount),
            shares > old(self).share_supply ==> r == Err::<u64, Error>(Error::InsufficientShares),
            r is Err ==> *final(self) == *old(self),
            r matches Ok(amount) ==> {
                &&& amount as int == old(self).redeem_amount(shares as int)
                &&& *final(self) == old(self).after_redeem(shares as int)
                &&& amount <= old(self).vault.balance
                &&& (shares == old(self).share_supply ==> amount == old(self).vault.balance
                    && final(self).vault.balance == 0 && final(self).share_supply == 0)
                &&& (shares < old(self).share_supply ==> final(self).share_supply > 0
                    && per_share_value_le(*old(self), *final(self)))
            },
    {
        if shares == 0 {
            return Err(Error::InvalidAmount);
        }
        if shares > self.share_supply {
            return Err(Error::InsufficientShares);
        }
        let ghost b = self.vault.balance as int;
        let ghost s = self.share_supply as int;
        proof {
            lemma_mul_div_le(b, shares as int, s);
            lemma_mul_is_commutative(b, shares as int);
        }
        let amount = mul_div_floor(shares, self.vault.balance, self.share_supply);
        proof {
            lemma_div_mul_le(shares as int * b, s);
            lemma_mul_is_commutative(amount as int, s);
            lemma_mul_is_commutative(shares as int, b);
            if shares == self.share_supply {
                lemma_div_multiples_vanish(b, s);
                assert(s * b == shares as int * b) by (nonlinear_arith)
                    requires
                        s == shares as int,
                ;
            } else {
                lemma_partial_redeem(b, s, shares as int, amount as int);
            }
        }
        let out = self.vault.withdraw(amount);
        self.share_supply = self.share_supply - shares;
        Ok(out)
    }

    /// Adds `amount` of the underlying asset to the vault without minting
    /// shares, raising the redemption value of every outstanding share.
    /// Fails with `InvalidAmount` exactly when `amount` is zero and with
    /// `EmptyPool` exactly when a positive reward meets an empty pool,
    /// and then changes nothing. The caller is responsible for the
    /// authorization gate; the pool checks amounts only.
    pub fn inject_reward(&mut self, amount: u64) -> (r: Result<(), Error>)
        requires
            old(self).wf(),
            amount > 0 && old(self).share_supply > 0 ==> old(self).vault.balance + amount
                <= u64::MAX,
        ensures
            final(self).wf(),
            r is Ok <==> amount > 0 && old(self).share_supply > 0,
            amount == 0 ==> r == Err::<(), Error>(Error::InvalidAmount),
            amount > 0 && old(self).share_supply == 0 ==> r == Err::<(), Error>(Error::EmptyPool),
            r is Err ==> *final(self) == *old(self),
            r is Ok ==> {
                &&& *final(self) == old(self).after_inject(amount as int)
                &&& final(self).share_supply == old(self).share_supply
                &&& per_share_value_le(*old(self), *final(self))
            },
    {
        if amount == 0 {
            return Err(Error::InvalidAmount);
        }
        if self.share_supply == 0 {
            return Err(Error::EmptyPool);
        }
        let ghost b = self.vault.balance as int;
        let ghost s = self.share_supply as int;
        self.vault.deposit(amount);
        proof {
            assert(b * s <= (b + amount as int) * s) by (nonlinear_arith)
                requires
                    0 <= b,
                    0 <= s,
                    0 < amount as int,
            ;
        }
        Ok(())
    }
}

/// The cross-multiplied per-share comparison is transitive over pools
/// with positive supply, so the per-operation guarantees chain: any
/// sequence of operations that each do not lower the per-share value —
/// reward injections, contributions, partial redemptions — never lowers
/// it overall.
pub proof fn lemma_per_share_value_transitive(p: Pool, q: Pool, r: Pool)
    requires
        p.share_supply > 0,
        q.share_supply > 0,
        r.share_supply > 0,
        per_share_value_le(p, q),
        per_share_value_le(q, r),
    ensures
        per_share_value_le(p, r),
{
    crate::math::lemma_ratio_le_transitive(
        p.vault.balance as int,
        p.share_supply as int,
        q.vault.balance as int,
        q.share_supply as int,
        r.vault.balance as int,
        r.share_supply as int,
    );
}

/// The total of a sequence of rewards.
pub open spec fn sum_rewards(rewards: Seq<u64>) -> int
    decreases rewards.len(),
{
    if rewards.len() == 0 {
        0
    } else {
        rewards[0] + sum_rewards(rewards.skip(1))
    }
}

proof fn lemma_sum_rewards_nonneg(rewards: Seq<u64>)
    ensures
        sum_rewards(rewards) >= 0,
    decreases rewards.len(),
{
    if rewards.len() > 0 {
        lemma_sum_rewards_nonneg(rewards.skip(1));
    }
}

/// The pool after a whole sequence of reward injections.
pub open spec fn after_injects(p: Pool, rewards: Seq<u64>) -> Pool
    decreases rewards.len(),
{
    if rewards.len() == 0 {
        p
    } else {
        after_injects(p.after_inject(rewards[0] as int), rewards.skip(1))
    }
}

/// Monotonicity of the per-share value: across any sequence of reward
/// injections (whose total the balance can hold), the share supply
/// stands, the pool stays well formed, and the per-share value never
/// decreases.
pub proof fn lemma_per_share_monotone_over_injections(p: Pool, rewards: Seq<u64>)
    requires
        p.wf(),
        p.share_supply > 0,
        p.vault.balance + sum_rewards(rewards) <= u64::MAX,
    ensures
        after_injects(p, rewards).wf(),
        after_injects(p, rewards).share_supply == p.share_supply,
        per_share_value_le(p, after_injects(p, rewards)),
    decreases rewards.len(),
{
    if rewards.len() > 0 {
        lemma_sum_rewards_nonneg(rewards.skip(1));
        let q = p.after_inject(rewards[0] as int);
        let b = p.vault.balance as int;
        let s = p.share_supply as int;
        assert(b * s <= (b + rewards[0] as int) * s) by (nonlinear_arith)
            requires
                0 <= b,
                0 <= s,
                0 <= rewards[0] as int,
        ;
        lemma_per_share_monotone_over_injections(q, rewards.skip(1));
        lemma_per_share_value_transitive(p, q, after_injects(q, rewards.skip(1)));
    }
}

/// The round-trip bound: contributing `amount` to a well-formed pool and
/// at once redeeming the freshly minted shares returns at most `amount`
/// — flooring can only keep value in the pool, never leak it out.
pub proof fn lemma_contribute_redeem_round_trip(p: Pool, amount: u64)
    requires
        p.wf(),
        amount > 0,
        p.vault.balance + amount <= u64::MAX,
    ensures
        p.after_contribute(amount as int).redeem_amount(p.contribute_shares(amount as int))
            <= amount as int,
{
    let b = p.vault.balance as int;
    let s = p.share_supply as int;
    let a = amount as int;
    let m = p.contribute_shares(a);
    if s == 0 {
        assert(m == a);
        assert(m * b <= a * s) by (nonlinear_arith)
            requires
                b == 0,
                s == 0,
        ;
    } else {
        lemma_mul_div_le(a, s, b);
        lemma_div_mul_le(a * s, b);
        lemma_mul_is_commutative(m, b);
    }
    lemma_round_trip_amount(b, s, a, m);
    assert(p.after_contribute(a).redeem_amount(m) == m * (b + a) / (s + m));
}

} // verus!
