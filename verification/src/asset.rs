//! Canonical, venue-independent description of tokens and token amounts.

use vstd::prelude::*;

verus! {

/// The kind of a canonical asset: a chain-native denomination, a token issued
/// by a contract, or an entry of a multi-token contract (address and token id).
#[derive(Debug, PartialEq)]
pub enum AssetInfo {
    Native(String),
    Cw20(String),
    Cw1155(String, String),
}

/// A canonical asset: a kind together with an unsigned amount.
#[derive(Debug, PartialEq)]
pub struct Asset {
    pub info: AssetInfo,
    pub amount: u128,
}

/// An ordered list of canonical assets. Lookups are keyed by `info`; this
/// layer does not deduplicate entries with the same kind.
#[derive(Debug, PartialEq)]
pub struct AssetList(pub Vec<Asset>);

/// Structural equality of asset kinds: the same variant with identical
/// identifier strings; distinct variants are never equal.
pub open spec fn info_eq(a: AssetInfo, b: AssetInfo) -> bool {
    match a {
        AssetInfo::Native(d1) => match b {
            AssetInfo::Native(d2) => d1@ == d2@,
            _ => false,
        },
        AssetInfo::Cw20(a1) => match b {
            AssetInfo::Cw20(a2) => a1@ == a2@,
            _ => false,
        },
        AssetInfo::Cw1155(c1, t1) => match b {
            AssetInfo::Cw1155(c2, t2) => c1@ == c2@ && t1@ == t2@,
            _ => false,
        },
    }
}

/// Whether an asset is of the chain-native kind.
pub open spec fn is_native(a: Asset) -> bool {
    a.info matches AssetInfo::Native(_)
}

/// The denomination of a native asset.
pub open spec fn native_denom(a: Asset) -> Seq<char> {
    match a.info {
        AssetInfo::Native(d) => d@,
        _ => Seq::empty(),
    }
}

/// Equality of assets: equal kinds and equal amounts.
pub open spec fn asset_eq(a: Asset, b: Asset) -> bool {
    info_eq(a.info, b.info) && a.amount == b.amount
}

impl AssetInfo {
    /// Structural equality check, variant-wise; never coerces across variants.
    pub fn eq_info(&self, other: &AssetInfo) -> (r: bool)
        ensures
            r == info_eq(*self, *other),
    {
        match (self, other) {
            (AssetInfo::Native(d1), AssetInfo::Native(d2)) => *d1 == *d2,
            (AssetInfo::Cw20(a1), AssetInfo::Cw20(a2)) => *a1 == *a2,
            (AssetInfo::Cw1155(c1, t1), AssetInfo::Cw1155(c2, t2)) => *c1 == *c2 && *t1 == *t2,
            _ => false,
        }
    }

    /// A copy with the same identifier strings.
    pub fn dup(&self) -> (r: AssetInfo)
        ensures
            r == *self,
    {
        match self {
            AssetInfo::Native(d) => AssetInfo::Native(d.clone()),
            AssetInfo::Cw20(a) => AssetInfo::Cw20(a.clone()),
            AssetInfo::Cw1155(c, t) => AssetInfo::Cw1155(c.clone(), t.clone()),
        }
    }
}

impl Asset {
    /// A copy with the same kind and amount.
    pub fn dup(&self) -> (r: Asset)
        ensures
            r == *self,
    {
        Asset { info: self.info.dup(), amount: self.amount }
    }
}

} // verus!
