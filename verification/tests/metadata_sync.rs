use plaza_staking::address::{ComponentAddress, ResourceAddress};
use plaza_staking::metadata::{
    resolve_icon, resolve_symbol, sync_component_metadata, sync_share_metadata, TokenMetadata,
};
use plaza_staking::staking::PlazaStaking;

const FALLBACK_ICON: &str =
    "https://radix.defiplaza.net/assets/img/babylon/defiplaza-badge-dapp.png";

#[test]
fn symbol_defaults_when_absent_or_empty() {
    assert_eq!(resolve_symbol(&None), "STAKE");
    assert_eq!(resolve_symbol(&Some("".to_owned())), "STAKE");
    assert_eq!(resolve_symbol(&Some("DFP2".to_owned())), "DFP2");
}

#[test]
fn icon_defaults_when_absent() {
    assert_eq!(resolve_icon(&None), FALLBACK_ICON);
    assert_eq!(
        resolve_icon(&Some("https://icons.example/x.png".to_owned())),
        "https://icons.example/x.png"
    );
}

#[test]
fn share_metadata_is_derived_from_the_underlying_asset() {
    let token = ResourceAddress::new("resource_base_token".to_owned());
    let m = sync_share_metadata(&Some("DFP2".to_owned()), &token);
    assert_eq!(m.symbol, "sDFP2");
    assert_eq!(m.name, "Staked DFP2");
    assert_eq!(
        m.icon_url,
        "https://assets.defiplaza.net/lptokens/resource_base_token_base.png"
    );
    assert_eq!(m.stake_token, "resource_base_token");
}

#[test]
fn share_metadata_uses_the_default_symbol() {
    let token = ResourceAddress::new("resource_base_token".to_owned());
    let m = sync_share_metadata(&None, &token);
    assert_eq!(m.symbol, "sSTAKE");
    assert_eq!(m.name, "Staked STAKE");
}

#[test]
fn component_metadata_is_derived_once() {
    let m = sync_component_metadata(
        &Some("DFP2".to_owned()),
        &None,
        "A staking wrapper".to_owned(),
        "https://staking.example".to_owned(),
        ComponentAddress::new("component_dapp_definition".to_owned()),
    );
    assert_eq!(m.name, "DFP2 Staking");
    assert_eq!(m.description, "A staking wrapper");
    assert_eq!(m.info_url, "https://staking.example");
    assert_eq!(m.icon_url, FALLBACK_ICON);
    assert_eq!(m.tags, ["Staking".to_owned()]);
    assert_eq!(m.dapp_definition.encoded, "component_dapp_definition");
}

#[test]
fn genesis_publishes_the_derived_metadata() {
    let g = PlazaStaking::new(
        ResourceAddress::new("resource_owner_badge".to_owned()),
        25,
        ResourceAddress::new("resource_base_token".to_owned()),
        ComponentAddress::new("component_dapp_definition".to_owned()),
        "https://staking.example".to_owned(),
        "A staking wrapper".to_owned(),
        TokenMetadata {
            symbol: Some("DFP2".to_owned()),
            icon_url: Some("https://icons.example/dfp2.png".to_owned()),
        },
        ComponentAddress::new("component_self".to_owned()),
    )
    .unwrap();
    let c = g.component;
    assert_eq!(c.share_metadata.symbol, "sDFP2");
    assert_eq!(c.share_metadata.name, "Staked DFP2");
    assert_eq!(
        c.share_metadata.icon_url,
        "https://assets.defiplaza.net/lptokens/resource_base_token_base.png"
    );
    assert_eq!(c.share_metadata.stake_token, "resource_base_token");
    assert_eq!(c.component_metadata.name, "DFP2 Staking");
    assert_eq!(c.component_metadata.icon_url, "https://icons.example/dfp2.png");
    assert_eq!(c.gate.fixed_identity.encoded, "component_self");
    assert_eq!(c.owner_badge.encoded, "resource_owner_badge");
}
