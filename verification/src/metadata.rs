//! Derivation of the share asset's display metadata.
//!
//! This runs once, at genesis. The underlying asset's own metadata is
//! read by the host platform and handed over as plain optional values;
//! the library resolves the documented defaults and derives the fields
//! published for the share asset and for the component itself.

use vstd::prelude::*;
use vstd::string::StringExecFns;
use crate::address::ComponentAddress;
use crate::address::ResourceAddress;

verus! {

/// The underlying asset's descriptive metadata, as read by the host:
/// `None` where the asset publishes no such field.
pub struct TokenMetadata {
    pub symbol: Option<String>,
    pub icon_url: Option<String>,
}

/// The fields published for the share asset at genesis.
pub struct ShareMetadata {
    pub symbol: String,
    pub name: String,
    pub icon_url: String,
    /// The canonical address encoding of the underlying asset, recorded
    /// as a human-readable back-reference.
    pub stake_token: String,
}

/// The fields published for the component itself at genesis.
pub struct ComponentMetadata {
    pub name: String,
    pub description: String,
    pub info_url: String,
    pub icon_url: String,
    pub tags: Vec<String>,
    pub dapp_definition: ComponentAddress,
}

/// The underlying symbol when present and non-empty, else the literal
/// default.
pub open spec fn spec_resolved_symbol(symbol: Option<String>) -> Seq<char> {
    match symbol {
        Option::Some(s) => if s@.len() > 0 {
            s@
        } else {
            "STAKE"@
        },
        Option::None => "STAKE"@,
    }
}

/// The underlying icon reference when present, else the fixed fallback.
pub open spec fn spec_resolved_icon(icon: Option<String>) -> Seq<char> {
    match icon {
        Option::Some(u) => u@,
        Option::None => "https://radix.defiplaza.net/assets/img/babylon/defiplaza-badge-dapp.png"@,
    }
}

/// The share asset's symbol: the underlying symbol prefixed with `s`.
pub open spec fn spec_share_symbol(symbol: Seq<char>) -> Seq<char> {
    "s"@ + symbol
}

/// The share asset's display name.
pub open spec fn spec_share_name(symbol: Seq<char>) -> Seq<char> {
    "Staked "@ + symbol
}

/// The share asset's icon: a templated reference keyed by the underlying
/// asset's canonical address encoding.
pub open spec fn spec_share_icon(token_encoded: Seq<char>) -> Seq<char> {
    "https://assets.defiplaza.net/lptokens/"@ + token_encoded + "_base.png"@
}

/// The component's display name.
pub open spec fn spec_component_name(symbol: Seq<char>) -> Seq<char> {
    symbol + " Staking"@
}

/// Resolves the underlying asset's symbol against the default table: the
/// published symbol when present and non-empty, else `"STAKE"`.
pub fn resolve_symbol(symbol: &Option<String>) -> (r: String)
    ensures
        r@ == spec_resolved_symbol(*symbol),
{
    match symbol {
        Option::Some(s) => {
            if s.as_str().is_empty() {
                "STAKE".to_owned()
            } else {
                s.clone()
            }
        },
        Option::None => "STAKE".to_owned(),
    }
}

/// Resolves the underlying asset's icon reference against the default
/// table: the published reference when present, else the fixed fallback.
pub fn resolve_icon(icon: &Option<String>) -> (r: String)
    ensures
        r@ == spec_resolved_icon(*icon),
{
    match icon {
        Option::Some(u) => u.clone(),
        Option::None => {
            "https://radix.defiplaza.net/assets/img/babylon/defiplaza-badge-dapp.png".to_owned()
        },
    }
}

/// Derives the share asset's metadata from the underlying asset's
/// published symbol and canonical address encoding.
pub fn sync_share_metadata(symbol: &Option<String>, token: &ResourceAddress) -> (m: ShareMetadata)
    ensures
        m.symbol@ == spec_share_symbol(spec_resolved_symbol(*symbol)),
        m.name@ == spec_share_name(spec_resolved_symbol(*symbol)),
        m.icon_url@ == spec_share_icon(token.encoded@),
        m.stake_token@ == token.encoded@,
{
    let resolved = resolve_symbol(symbol);
    let share_symbol = "s".to_owned().concat(resolved.as_str());
    let share_name = "Staked ".to_owned().concat(resolved.as_str());
    let share_icon = "https://assets.defiplaza.net/lptokens/".to_owned().concat(
        token.encoded.as_str(),
    ).concat("_base.png");
    ShareMetadata {
        symbol: share_symbol,
        name: share_name,
        icon_url: share_icon,
        stake_token: token.encoded.clone(),
    }
}

/// Derives the component's own metadata from the resolved underlying
/// symbol and icon and the values handed over at genesis.
pub fn sync_component_metadata(
    symbol: &Option<String>,
    icon: &Option<String>,
    description: String,
    info_url: String,
    dapp_definition: ComponentAddress,
) -> (m: ComponentMetadata)
    ensures
        m.name@ == spec_component_name(spec_resolved_symbol(*symbol)),
        m.description@ == description@,
        m.info_url@ == info_url@,
        m.icon_url@ == spec_resolved_icon(*icon),
        m.tags@.len() == 1,
        m.tags@[0]@ == "Staking"@,
        m.dapp_definition.encoded@ == dapp_definition.encoded@,
{
    let resolved = resolve_symbol(symbol);
    let name = resolved.concat(" Staking");
    let icon_url = resolve_icon(icon);
    let mut tags: Vec<String> = Vec::new();
    tags.push("Staking".to_owned());
    ComponentMetadata { name, description, info_url, icon_url, tags, dapp_definition }
}

} // verus!
