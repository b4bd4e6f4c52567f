//! The error vocabulary shared by every venue adapter.

use vstd::prelude::*;
use crate::asset::Asset;
use crate::asset::AssetInfo;

verus! {

/// Every failure an operation can surface. Validation and arithmetic errors
/// are deterministic: callers may retry with corrected input, and no partial
/// message is ever constructed alongside an error.
#[derive(Debug, PartialEq)]
pub enum CwDexError {
    /// A canonical asset variant the venue cannot represent.
    UnsupportedAssetKind { info: AssetInfo },
    /// A lookup by kind in a venue asset list found no match.
    TokenNotFound,
    /// A declared input asset was missing from the attached funds, or was of
    /// a kind the operation does not accept; carries the offending asset.
    InvalidInAsset { a: Asset },
    /// The requested swap output kind is unsupported by the venue.
    InvalidOutAsset,
    /// The operation needs a sender address and none was given.
    MissingSender,
    /// The staking operation needs venue stake options and none were given.
    MissingStakeOptions,
    /// The unstaking operation needs venue unstake options and none were given.
    MissingUnstakeOptions,
    /// Checked arithmetic overflowed.
    Overflow,
    /// A division met a zero divisor.
    DivideByZero,
    /// A lower layer failed; its report is passed through unreinterpreted.
    Underlying(String),
}

} // verus!
