use plaza_staking::address::{ComponentAddress, ResourceAddress};
use plaza_staking::errors::Error;
use plaza_staking::metadata::TokenMetadata;
use plaza_staking::staking::{GenesisOutcome, PlazaStaking};

fn genesis(initial_deposit: u64, symbol: Option<&str>, icon: Option<&str>) -> Result<GenesisOutcome, Error> {
    PlazaStaking::new(
        ResourceAddress::new("resource_owner_badge".to_owned()),
        initial_deposit,
        ResourceAddress::new("resource_base_token".to_owned()),
        ComponentAddress::new("component_dapp_definition".to_owned()),
        "https://staking.example".to_owned(),
        "A staking wrapper".to_owned(),
        TokenMetadata {
            symbol: symbol.map(|s| s.to_owned()),
            icon_url: icon.map(|s| s.to_owned()),
        },
        ComponentAddress::new("component_self".to_owned()),
    )
}

fn self_identity() -> ComponentAddress {
    ComponentAddress::new("component_self".to_owned())
}

#[test]
fn genesis_with_zero_deposit_fails() {
    assert_eq!(
        genesis(0, Some("DFP2"), None).map(|_| ()),
        Err(Error::InvalidAmount)
    );
}

#[test]
fn genesis_bootstraps_one_to_one() {
    let g = genesis(100, Some("DFP2"), None).unwrap();
    assert_eq!(g.shares_issued, 100);
    assert_eq!(g.component.pool.vault.balance, 100);
    assert_eq!(g.component.pool.share_supply, 100);
    assert_eq!(g.created_event.token.encoded, "resource_base_token");
    assert_eq!(g.stake_event.amount, 100);
}

#[test]
fn concrete_scenario() {
    // Starting empty: contribute 100 -> 100 shares, vault 100, supply 100.
    // Contribute 50 -> floor(50 * 100 / 100) = 50 shares, vault 150,
    // supply 150. Inject 30 -> vault 180, supply 150 (per-share 1.2).
    // Redeem 50 -> floor(50 * 180 / 150) = 60, vault 120, supply 100.
    let g = genesis(100, Some("DFP2"), None).unwrap();
    let mut c = g.component;
    assert_eq!(g.shares_issued, 100);
    assert_eq!(c.pool.vault.balance, 100);
    assert_eq!(c.pool.share_supply, 100);

    let (shares, ev) = c.add_stake(50).unwrap();
    assert_eq!(shares, 50);
    assert_eq!(ev.amount, 50);
    assert_eq!(c.pool.vault.balance, 150);
    assert_eq!(c.pool.share_supply, 150);

    let ev = c.deposit_rewards(&self_identity(), 30).unwrap();
    assert_eq!(ev.amount, 30);
    assert_eq!(c.pool.vault.balance, 180);
    assert_eq!(c.pool.share_supply, 150);

    let (payout, ev) = c.remove_stake(50).unwrap();
    assert_eq!(payout, 60);
    assert_eq!(ev.amount, 50);
    assert_eq!(c.pool.vault.balance, 120);
    assert_eq!(c.pool.share_supply, 100);
}

#[test]
fn unauthorized_reward_injection_is_rejected() {
    let g = genesis(100, Some("DFP2"), None).unwrap();
    let mut c = g.component;
    let stranger = ComponentAddress::new("component_stranger".to_owned());
    assert_eq!(c.deposit_rewards(&stranger, 30), Err(Error::Unauthorized));
    assert_eq!(c.pool.vault.balance, 100);
    assert_eq!(c.pool.share_supply, 100);
    // A near-miss identity is just as unauthorized.
    let near_miss = ComponentAddress::new("component_self ".to_owned());
    assert_eq!(c.deposit_rewards(&near_miss, 30), Err(Error::Unauthorized));
    assert_eq!(c.pool.vault.balance, 100);
}

#[test]
fn authorized_errors_keep_their_order() {
    let g = genesis(100, Some("DFP2"), None).unwrap();
    let mut c = g.component;
    // Authorized but zero amount: InvalidAmount.
    assert_eq!(
        c.deposit_rewards(&self_identity(), 0),
        Err(Error::InvalidAmount)
    );
    // Drain the pool, then an authorized positive reward: EmptyPool.
    let supply = c.pool.share_supply;
    c.remove_stake(supply).unwrap();
    assert_eq!(c.pool.vault.balance, 0);
    assert_eq!(
        c.deposit_rewards(&self_identity(), 30),
        Err(Error::EmptyPool)
    );
    // Unauthorized wins over the amount and pool checks.
    let stranger = ComponentAddress::new("component_stranger".to_owned());
    assert_eq!(c.deposit_rewards(&stranger, 0), Err(Error::Unauthorized));
}

#[test]
fn remove_stake_errors_through_component() {
    let g = genesis(10, Some("DFP2"), None).unwrap();
    let mut c = g.component;
    assert_eq!(c.remove_stake(0).map(|r| r.0), Err(Error::InvalidAmount));
    assert_eq!(
        c.remove_stake(11).map(|r| r.0),
        Err(Error::InsufficientShares)
    );
    assert_eq!(c.pool.vault.balance, 10);
    assert_eq!(c.pool.share_supply, 10);
}

#[test]
fn set_metadata_gated_by_owner_badge() {
    let g = genesis(10, Some("DFP2"), None).unwrap();
    let mut c = g.component;
    let stranger = ResourceAddress::new("resource_stranger".to_owned());
    let r = c.set_metadata(
        &stranger,
        "n".to_owned(),
        "d".to_owned(),
        "u".to_owned(),
        "i".to_owned(),
    );
    assert_eq!(r, Err(Error::Unauthorized));
    assert_eq!(c.component_metadata.name, "DFP2 Staking");

    let owner = ResourceAddress::new("resource_owner_badge".to_owned());
    let r = c.set_metadata(
        &owner,
        "New name".to_owned(),
        "New description".to_owned(),
        "https://new.example".to_owned(),
        "https://new.example/icon.png".to_owned(),
    );
    assert_eq!(r, Ok(()));
    assert_eq!(c.component_metadata.name, "New name");
    assert_eq!(c.component_metadata.description, "New description");
    assert_eq!(c.component_metadata.info_url, "https://new.example");
    assert_eq!(c.component_metadata.icon_url, "https://new.example/icon.png");
    // The metadata authority cannot inject rewards: the two authorities
    // are distinct.
    let owner_as_caller = ComponentAddress::new("resource_owner_badge".to_owned());
    assert_eq!(
        c.deposit_rewards(&owner_as_caller, 5),
        Err(Error::Unauthorized)
    );
}
