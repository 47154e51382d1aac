//! The staking component: composition, events and the public operations.
//!
//! A `PlazaStaking` component owns exactly one pool for its whole
//! lifetime. Its lifecycle has a single transition: genesis creates the
//! component, fixes the privileged caller identity to the component's own
//! address, derives and publishes the display metadata, and performs the
//! first contribution. Two distinct authorities exist afterwards: the
//! fixed caller identity gates reward injection, while the owner badge —
//! an independently held administrative authority — gates metadata
//! updates only; the two are never interchangeable.

use vstd::prelude::*;
use crate::address::ComponentAddress;
use crate::address::ResourceAddress;
use crate::auth::AuthorizationGate;
use crate::errors::Error;
use crate::events::AddStakeEvent;
use crate::events::DepositRewardsEvent;
use crate::events::RemoveStakeEvent;
use crate::events::StakingCreatedEvent;
use crate::metadata::ComponentMetadata;
use crate::metadata::ShareMetadata;
use crate::metadata::TokenMetadata;
use crate::metadata::spec_component_name;
use crate::metadata::spec_resolved_icon;
use crate::metadata::spec_resolved_symbol;
use crate::metadata::spec_share_icon;
use crate::metadata::spec_share_name;
use crate::metadata::spec_share_symbol;
use crate::metadata::sync_component_metadata;
use crate::metadata::sync_share_metadata;
use crate::pool::Pool;
use crate::pool::per_share_value_le;

verus! {

/// The staking component. It owns one pool, the authorization rule with
/// its caller identity fixed at genesis, the owner badge governing
/// metadata updates, and the published metadata records.
pub struct PlazaStaking {
    pub pool: Pool,
    pub gate: AuthorizationGate,
    pub owner_badge: ResourceAddress,
    pub share_metadata: ShareMetadata,
    pub component_metadata: ComponentMetadata,
}

/// Everything genesis hands back: the live component, the shares minted
/// for the initial deposit, and the events to publish, in order of
/// emission.
pub struct GenesisOutcome {
    pub component: PlazaStaking,
    pub shares_issued: u64,
    pub created_event: StakingCreatedEvent,
    pub stake_event: AddStakeEvent,
}

impl PlazaStaking {
    /// The component's invariant: its pool is well formed.
    pub open spec fn wf(self) -> bool {
        self.pool.wf()
    }

    /// All state outside the pool — the two authorities and the published
    /// metadata — is as it was: no operation after genesis touches it
    /// except a metadata update.
    pub open spec fn same_except_pool(self, other: PlazaStaking) -> bool {
        &&& self.gate == other.gate
        &&& self.owner_badge == other.owner_badge
        &&& self.share_metadata == other.share_metadata
        &&& self.component_metadata == other.component_metadata
    }

    /// Genesis: creates the component and its pool, fixes the privileged
    /// caller identity to the component's own address, derives and
    /// publishes the metadata, and performs the first contribution at the
    /// 1:1 bootstrap rate. Fails with `InvalidAmount` exactly when the
    /// initial deposit is zero.
    pub fn new(
        owner_badge: ResourceAddress,
        initial_deposit: u64,
        token: ResourceAddress,
        dapp_def_address: ComponentAddress,
        info_url: String,
        description: String,
        token_metadata: TokenMetadata,
        component_address: ComponentAddress,
    ) -> (r: Result<GenesisOutcome, Error>)
        ensures
            r is Ok <==> initial_deposit > 0,
            r is Err ==> r == Err::<GenesisOutcome, Error>(Error::InvalidAmount),
            r matches Ok(g) ==> {
                &&& g.component.wf()
                &&& g.component.pool.vault.balance == initial_deposit
                &&& g.component.pool.share_supply == initial_deposit
                &&& g.shares_issued == initial_deposit
                &&& g.component.gate.fixed_identity.encoded@ == component_address.encoded@
                &&& g.component.owner_badge.encoded@ == owner_badge.encoded@
                &&& g.component.share_metadata.symbol@ == spec_share_symbol(
                    spec_resolved_symbol(token_metadata.symbol),
                )
                &&& g.component.share_metadata.name@ == spec_share_name(
                    spec_resolved_symbol(token_metadata.symbol),
                )
                &&& g.component.share_metadata.icon_url@ == spec_share_icon(token.encoded@)
                &&& g.component.share_metadata.stake_token@ == token.encoded@
                &&& g.component.component_metadata.name@ == spec_component_name(
                    spec_resolved_symbol(token_metadata.symbol),
                )
                &&& g.component.component_metadata.description@ == description@
                &&& g.component.component_metadata.info_url@ == info_url@
                &&& g.component.component_metadata.icon_url@ == spec_resolved_icon(
                    token_metadata.icon_url,
                )
                &&& g.component.component_metadata.tags@.len() == 1
                &&& g.component.component_metadata.tags@[0]@ == "Staking"@
                &&& g.component.component_metadata.dapp_definition.encoded@
                    == dapp_def_address.encoded@
                &&& g.created_event.token.encoded@ == token.encoded@
                &&& g.stake_event.amount == initial_deposit
            },
    {
        let share_metadata = sync_share_metadata(&token_metadata.symbol, &token);
        let component_metadata = sync_component_metadata(
            &token_metadata.symbol,
            &token_metadata.icon_url,
            description,
            info_url,
            dapp_def_address,
        );
        let created_event = StakingCreatedEvent { token };
        let mut component = PlazaStaking {
            pool: Pool::empty(),
            gate: AuthorizationGate::new(component_address),
            owner_badge,
            share_metadata,
            component_metadata,
        };
        match component.add_stake(initial_deposit) {
            Ok((shares, stake_event)) => Ok(
                GenesisOutcome { component, shares_issued: shares, created_event, stake_event },
            ),
            Err(e) => Err(e),
        }
    }

    /// Public contribution: locks `amount` of the underlying asset in the
    /// pool and returns the shares minted and the event to publish. Fails
    /// with `InvalidAmount` exactly when `amount` is zero, and then
    /// changes nothing.
    pub fn add_stake(&mut self, amount: u64) -> (r: Result<(u64, AddStakeEvent), Error>)
        requires
            old(self).wf(),
            amount > 0 ==> old(self).pool.vault.balance + amount <= u64::MAX,
        ensures
            final(self).wf(),
            final(self).same_except_pool(*old(self)),
            r is Ok <==> amount > 0,
            r is Err ==> r == Err::<(u64, AddStakeEvent), Error>(Error::InvalidAmount)
                && *final(self) == *old(self),
            r matches Ok((shares, ev)) ==> {
                &&& shares as int == old(self).pool.contribute_shares(amount as int)
                &&& final(self).pool == old(self).pool.after_contribute(amount as int)
                &&& shares <= amount
                &&& (old(self).pool.share_supply == 0 ==> shares == amount
                    && final(self).pool.vault.balance == amount)
                &&& (old(self).pool.share_supply > 0 ==> per_share_value_le(
                    old(self).pool,
                    final(self).pool,
                ))
                &&& ev.amount == amount
            },
    {
        match self.pool.contribute(amount) {
            Ok(shares) => Ok((shares, AddStakeEvent { amount })),
            Err(e) => Err(e),
        }
    }

    /// Public redemption: burns `amount` shares and returns the
    /// proportional payout of the underlying asset and the event to
    /// publish. Fails with `InvalidAmount` exactly when `amount` is zero
    /// and with `InsufficientShares` exactly when `amount` exceeds the
    /// outstanding supply, and then changes nothing.
    pub fn remove_stake(&mut self, amount: u64) -> (r: Result<(u64, RemoveStakeEvent), Error>)
        requires
            old(self).wf(),
        ensures
            final(self).wf(),
            final(self).same_except_pool(*old(self)),
            r is Ok <==> 0 < amount <= old(self).pool.share_supply,
            amount == 0 ==> r == Err::<(u64, RemoveStakeEvent), Error>(Error::InvalidAmount),
            amount > old(self).pool.share_supply ==> r == Err::<(u64, RemoveStakeEvent), Error>(
                Error::InsufficientShares,
            ),
            r is Err ==> *final(self) == *old(self),
            r matches Ok((payout, ev)) ==> {
                &&& payout as int == old(self).pool.redeem_amount(amount as int)
                &&& final(self).pool == old(self).pool.after_redeem(amount as int)
                &&& payout <= old(self).pool.vault.balance
                &&& (amount == old(self).pool.share_supply
                    ==> payout == old(self).pool.vault.balance
                    && final(self).pool.vault.balance == 0
                    && final(self).pool.share_supply == 0)
                &&& (amount < old(self).pool.share_supply ==> final(self).pool.share_supply > 0
                    && per_share_value_le(old(self).pool, final(self).pool))
                &&& ev.amount == amount
            },
    {
        match self.pool.redeem(amount) {
            Ok(payout) => Ok((payout, RemoveStakeEvent { amount })),
            Err(e) => Err(e),
        }
    }

    /// Reward injection, the one privileged pool operation: the verified
    /// identity of the caller must be the one fixed at genesis. On
    /// success the vault balance grows by `amount`, the share supply
    /// stands, and the per-share value does not fall. Fails with
    /// `Unauthorized` for any other caller, with `InvalidAmount` for a
    /// zero amount and with `EmptyPool` when no shares are outstanding —
    /// each exactly, and every failure changes nothing.
    pub fn deposit_rewards(&mut self, caller: &ComponentAddress, amount: u64) -> (r: Result<
        DepositRewardsEvent,
        Error,
    >)
        requires
            old(self).wf(),
            old(self).gate.admits(*caller) && amount > 0 && old(self).pool.share_supply > 0
                ==> old(self).pool.vault.balance + amount <= u64::MAX,
        ensures
            final(self).wf(),
            final(self).same_except_pool(*old(self)),
            r is Ok <==> old(self).gate.admits(*caller) && amount > 0
                && old(self).pool.share_supply > 0,
            !old(self).gate.admits(*caller) ==> r == Err::<DepositRewardsEvent, Error>(
                Error::Unauthorized,
            ),
            old(self).gate.admits(*caller) && amount == 0
                ==> r == Err::<DepositRewardsEvent, Error>(Error::InvalidAmount),
            old(self).gate.admits(*caller) && amount > 0 && old(self).pool.share_supply == 0
                ==> r == Err::<DepositRewardsEvent, Error>(Error::EmptyPool),
            r is Err ==> *final(self) == *old(self),
            r matches Ok(ev) ==> {
                &&& final(self).pool == old(self).pool.after_inject(amount as int)
                &&& final(self).pool.share_supply == old(self).pool.share_supply
                &&& per_share_value_le(old(self).pool, final(self).pool)
                &&& ev.amount == amount
            },
    {
        match self.gate.check(caller) {
            Ok(_) => {},
            Err(e) => {
                return Err(e);
            },
        }
        match self.pool.inject_reward(amount) {
            Ok(_) => Ok(DepositRewardsEvent { amount }),
            Err(e) => Err(e),
        }
    }

    /// Administrative metadata update, gated by the owner badge — the
    /// authority distinct from the fixed caller identity; it governs
    /// display metadata only and can never touch the pool. Fails with
    /// `Unauthorized` exactly when the presented badge is not the owner
    /// badge, and then changes nothing.
    pub fn set_metadata(
        &mut self,
        badge: &ResourceAddress,
        name: String,
        description: String,
        info_url: String,
        icon_url: String,
    ) -> (r: Result<(), Error>)
        ensures
            final(self).pool == old(self).pool,
            final(self).gate == old(self).gate,
            final(self).owner_badge == old(self).owner_badge,
            final(self).share_metadata == old(self).share_metadata,
            r is Ok <==> badge.encoded@ == old(self).owner_badge.encoded@,
            r is Err ==> r == Err::<(), Error>(Error::Unauthorized) && *final(self) == *old(self),
            r is Ok ==> {
                &&& final(self).component_metadata.name@ == name@
                &&& final(self).component_metadata.description@ == description@
                &&& final(self).component_metadata.info_url@ == info_url@
                &&& final(self).component_metadata.icon_url@ == icon_url@
                &&& final(self).component_metadata.tags == old(self).component_metadata.tags
                &&& final(self).component_metadata.dapp_definition
                    == old(self).component_metadata.dapp_definition
            },
    {
        if !(badge.encoded == self.owner_badge.encoded) {
            return Err(Error::Unauthorized);
        }
        self.component_metadata.name = name;
        self.component_metadata.description = description;
        self.component_metadata.info_url = info_url;
        self.component_metadata.icon_url = icon_url;
        Ok(())
    }
}

} // verus!
