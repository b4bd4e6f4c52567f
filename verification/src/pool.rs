//! The uniform pool-operations interface each venue adapter implements.

use vstd::prelude::*;
use crate::asset::{Asset, AssetList};
use crate::error::CwDexError;
use crate::msg::OutboundMsg;

verus! {

/// Uniform operations over a liquidity pool. A venue adapter is chosen at
/// construction time; callers then use these operations without venue-specific
/// knowledge. Each adapter states, as a relation, the exact message or error
/// every operation produces, and its operations are proved to satisfy it:
/// deterministic output, a uniform error vocabulary, and no partial message on
/// failure.
pub trait Pool {
    /// The exact outcome `provide_liquidity` promises for these inputs.
    spec fn provide_liquidity_post(
        &self,
        assets: AssetList,
        sender: Option<String>,
        r: Result<OutboundMsg, CwDexError>,
    ) -> bool;

    /// The exact outcome `withdraw_liquidity` promises for these inputs.
    spec fn withdraw_liquidity_post(
        &self,
        asset: Asset,
        sender: Option<String>,
        r: Result<OutboundMsg, CwDexError>,
    ) -> bool;

    /// The exact outcome `swap_msg` promises for these inputs.
    spec fn swap_msg_post(
        &self,
        offer: Asset,
        ask: Asset,
        sender: String,
        r: Result<OutboundMsg, CwDexError>,
    ) -> bool;

    /// Build the venue's join message depositing at most `assets`.
    fn provide_liquidity(&self, assets: AssetList, sender: Option<String>) -> (r: Result<
        OutboundMsg,
        CwDexError,
    >)
        ensures
            self.provide_liquidity_post(assets, sender, r),
    ;

    /// Build the venue's exit message burning the LP-share `asset`.
    fn withdraw_liquidity(&self, asset: Asset, sender: Option<String>) -> (r: Result<
        OutboundMsg,
        CwDexError,
    >)
        ensures
            self.withdraw_liquidity_post(asset, sender, r),
    ;

    /// Build a single-route swap: `offer` is the exact input, `ask` the
    /// minimum acceptable output.
    fn swap_msg(&self, offer: Asset, ask: Asset, sender: String) -> (r: Result<
        OutboundMsg,
        CwDexError,
    >)
        ensures
            self.swap_msg_post(offer, ask, sender, r),
    ;
}

} // verus!
