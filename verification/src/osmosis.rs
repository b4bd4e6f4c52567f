//! The venue adapter for a pool-and-lockup chain: pool operations build
//! structured join/exit/swap messages, staking operations build lock and
//! unlock messages. Reward distribution happens automatically on this venue,
//! so claiming is a documented no-op.

use vstd::prelude::*;
use vstd::arithmetic::div_mod::{lemma_div_is_ordered, lemma_mod_bound};
use crate::asset::{Asset, AssetInfo, AssetList, info_eq, is_native, native_denom};
use crate::error::CwDexError;
use crate::msg::{Coin, OsmosisMsg, OutboundMsg, Response};
use crate::pool::Pool;
use crate::staking::Staking;

verus! {

/// Whether every asset of the list is chain-native.
pub open spec fn all_native(s: Seq<Asset>) -> bool {
    forall|i: int| 0 <= i < s.len() ==> is_native(#[trigger] s[i])
}

/// Whether a coin carries exactly a native asset's denomination and amount.
pub open spec fn coin_matches_asset(c: Coin, a: Asset) -> bool {
    is_native(a) && c.denom@ == native_denom(a) && c.amount == a.amount
}

/// The offending kind of a failed conversion: the kind of the first asset
/// that is not native, every asset before it being native.
pub open spec fn first_unsupported_is(s: Seq<Asset>, bad: AssetInfo) -> bool {
    exists|i: int| {
        &&& 0 <= i < s.len()
        &&& !is_native(#[trigger] s[i])
        &&& info_eq(bad, s[i].info)
        &&& forall|j: int| 0 <= j < i ==> is_native(#[trigger] s[j])
    }
}

/// The outcome rejecting the first asset of an unsupported kind.
pub open spec fn rejects_first_unsupported(s: Seq<Asset>, r: Result<OutboundMsg, CwDexError>) -> bool {
    &&& r matches Err(e)
    &&& e matches CwDexError::UnsupportedAssetKind { info: bad }
    &&& first_unsupported_is(s, bad)
}

/// A join message: at most the listed deposits enter the pool. The venue
/// computes the shares minted, so no minimum share amount is imposed: that
/// policy is the caller's.
pub open spec fn is_join_pool(m: OutboundMsg, snd: Seq<char>, pid: u64, assets: Seq<Asset>) -> bool {
    &&& m matches OutboundMsg::Osmosis(om)
    &&& om matches OsmosisMsg::JoinPool { sender, pool_id, share_out_amount, token_in_maxs }
    &&& sender@ == snd
    &&& pool_id == pid
    &&& share_out_amount == 0
    &&& token_in_maxs@.len() == assets.len()
    &&& forall|i: int| 0 <= i < assets.len() ==> coin_matches_asset(#[trigger] token_in_maxs@[i], assets[i])
}

/// An exit message burning `share_in` LP shares. Minimum amounts out are a
/// caller policy, so none are set.
pub open spec fn is_exit_pool(m: OutboundMsg, snd: Seq<char>, pid: u64, share_in: u128) -> bool {
    &&& m matches OutboundMsg::Osmosis(om)
    &&& om matches OsmosisMsg::ExitPool { sender, pool_id, share_in_amount, token_out_mins }
    &&& sender@ == snd
    &&& pool_id == pid
    &&& share_in_amount == share_in
    &&& token_out_mins@.len() == 0
}

/// A swap message: the exact offered coin in, at least the asked amount of
/// the asked denomination out, along the single route through this pool.
pub open spec fn is_swap_exact_in(m: OutboundMsg, snd: Seq<char>, pid: u64, offer: Asset, ask: Asset) -> bool {
    &&& m matches OutboundMsg::Osmosis(om)
    &&& om matches OsmosisMsg::SwapExactAmountIn { sender, routes, token_in, token_out_min_amount }
    &&& sender@ == snd
    &&& routes@.len() == 1
    &&& routes@[0].pool_id == pid
    &&& routes@[0].token_out_denom@ == native_denom(ask)
    &&& coin_matches_asset(token_in, offer)
    &&& token_out_min_amount == ask.amount
}

/// A lock message: the owner locks exactly the staked coin for the venue's
/// configured duration, given in nanoseconds and split into whole seconds and
/// the sub-second remainder.
pub open spec fn is_lock_tokens(m: OutboundMsg, owner: Seq<char>, dur_nanos: u64, amount: Asset) -> bool {
    &&& m matches OutboundMsg::Osmosis(om)
    &&& om matches OsmosisMsg::LockTokens { owner: ow, duration_secs, duration_nanos, coins }
    &&& ow@ == owner
    &&& duration_secs == duration_secs_of(dur_nanos)
    &&& duration_nanos == duration_nanos_of(dur_nanos)
    &&& coins@.len() == 1
    &&& coin_matches_asset(coins@[0], amount)
}

/// An unlock message: begin unwinding the identified prior lock for exactly
/// the unstaked coin.
pub open spec fn is_begin_unlocking(m: OutboundMsg, owner: Seq<char>, lock: u64, amount: Asset) -> bool {
    &&& m matches OutboundMsg::Osmosis(om)
    &&& om matches OsmosisMsg::BeginUnlocking { owner: ow, id, coins }
    &&& ow@ == owner
    &&& id == lock
    &&& coins@.len() == 1
    &&& coin_matches_asset(coins@[0], amount)
}

/// A lock-and-delegate message: the staked coin is locked and delegated to
/// the given validator in one step.
pub open spec fn is_lock_superfluid(m: OutboundMsg, snd: Seq<char>, val: Seq<char>, amount: Asset) -> bool {
    &&& m matches OutboundMsg::Osmosis(om)
    &&& om matches OsmosisMsg::LockAndSuperfluidDelegate { sender, coins, val_addr }
    &&& sender@ == snd
    &&& coins@.len() == 1
    &&& coin_matches_asset(coins@[0], amount)
    &&& val_addr@ == val
}

/// An unbond message for a delegated lock: it names only the lock, never an
/// amount, as the whole lock unbonds.
pub open spec fn is_superfluid_unbond(m: OutboundMsg, snd: Seq<char>, lock: u64) -> bool {
    &&& m matches OutboundMsg::Osmosis(om)
    &&& om matches OsmosisMsg::SuperfluidUnbondLock { sender, lock_id }
    &&& sender@ == snd
    &&& lock_id == lock
}

/// This venue accepts only native assets: convert one, keeping denomination
/// and amount, or reject its kind.
fn asset_to_coin(a: &Asset) -> (r: Result<Coin, CwDexError>)
    ensures
        is_native(*a) ==> (r matches Ok(c) && coin_matches_asset(c, *a)),
        !is_native(*a) ==> (r matches Err(e) && e matches CwDexError::UnsupportedAssetKind { info: bad }
            && info_eq(bad, a.info)),
{
    match &a.info {
        AssetInfo::Native(d) => Ok(Coin { denom: d.clone(), amount: a.amount }),
        _ => Err(CwDexError::UnsupportedAssetKind { info: a.info.dup() }),
    }
}

/// Convert a whole list to native coins, in order; fails on the first asset
/// of any other kind.
fn to_native_coins(assets: &AssetList) -> (r: Result<Vec<Coin>, CwDexError>)
    ensures
        r matches Ok(v) ==> {
            &&& all_native(assets.0@)
            &&& v@.len() == assets.0@.len()
            &&& forall|i: int| 0 <= i < assets.0@.len() ==> coin_matches_asset(#[trigger] v@[i], assets.0@[i])
        },
        !all_native(assets.0@) ==> (r matches Err(e) && e matches CwDexError::UnsupportedAssetKind { info: bad }
            && first_unsupported_is(assets.0@, bad)),
        all_native(assets.0@) ==> r is Ok,
{
    let mut out: Vec<Coin> = Vec::new();
    let n = assets.0.len();
    let mut i: usize = 0;
    while i < n
        invariant
            n == assets.0@.len(),
            0 <= i <= n,
            out@.len() == i,
            forall|j: int| 0 <= j < i ==> is_native(#[trigger] assets.0@[j]),
            forall|j: int| 0 <= j < i ==> coin_matches_asset(#[trigger] out@[j], assets.0@[j]),
        decreases n - i,
    {
        match asset_to_coin(&assets.0[i]) {
            Ok(c) => out.push(c),
            Err(e) => {
                return Err(e);
            },
        }
        i += 1;
    }
    Ok(out)
}

/// The whole seconds in a nanosecond duration.
pub open spec fn duration_secs_of(nanos: u64) -> int {
    nanos as int / 1_000_000_000
}

/// The sub-second remainder of a nanosecond duration.
pub open spec fn duration_nanos_of(nanos: u64) -> int {
    nanos as int % 1_000_000_000
}

/// Split a nanosecond duration into whole seconds and the remainder, in the
/// signed widths the venue's duration record uses; both always fit.
fn split_duration(nanos: u64) -> (r: (i64, i32))
    ensures
        r.0 == duration_secs_of(nanos),
        r.1 == duration_nanos_of(nanos),
{
    let secs_u = nanos / 1_000_000_000;
    let rem_u = nanos % 1_000_000_000;
    proof {
        lemma_div_is_ordered(nanos as int, u64::MAX as int, 1_000_000_000);
        lemma_mod_bound(nanos as int, 1_000_000_000);
    }
    (secs_u as i64, rem_u as i32)
}

/// A pool on this venue, identified by its numeric pool id, fixed at
/// construction.
#[derive(Debug)]
pub struct OsmosisPool {
    pub pool_id: u64,
}

impl Pool for OsmosisPool {
    /// Joining requires every deposited asset to be native and a sender to be
    /// present; the join message carries the deposits as the per-asset maxima.
    open spec fn provide_liquidity_post(
        &self,
        assets: AssetList,
        sender: Option<String>,
        r: Result<OutboundMsg, CwDexError>,
    ) -> bool {
        &&& !all_native(assets.0@) ==> rejects_first_unsupported(assets.0@, r)
        &&& all_native(assets.0@) && sender is None ==> r == Err::<OutboundMsg, CwDexError>(
            CwDexError::MissingSender,
        )
        &&& all_native(assets.0@) ==> (sender matches Some(snd)
            ==> (r matches Ok(m) && is_join_pool(m, snd@, self.pool_id, assets.0@)))
    }

    /// Exiting requires a sender; the exit message burns the asset's amount
    /// of LP shares.
    open spec fn withdraw_liquidity_post(
        &self,
        asset: Asset,
        sender: Option<String>,
        r: Result<OutboundMsg, CwDexError>,
    ) -> bool {
        &&& sender is None ==> r == Err::<OutboundMsg, CwDexError>(CwDexError::MissingSender)
        &&& sender matches Some(snd) ==> (r matches Ok(m) && is_exit_pool(m, snd@, self.pool_id, asset.amount))
    }

    /// Swapping rejects a non-native ask (the venue pays out native coins
    /// only, so no message is ever constructed for a contract-issued ask) and
    /// a non-native offer; otherwise the message swaps the exact offer amount
    /// for at least the asked amount.
    open spec fn swap_msg_post(
        &self,
        offer: Asset,
        ask: Asset,
        sender: String,
        r: Result<OutboundMsg, CwDexError>,
    ) -> bool {
        &&& !is_native(ask) ==> r == Err::<OutboundMsg, CwDexError>(CwDexError::InvalidOutAsset)
        &&& is_native(ask) && !is_native(offer) ==> (r matches Err(e)
            && e matches CwDexError::UnsupportedAssetKind { info: bad }
            && info_eq(bad, offer.info))
        &&& is_native(ask) && is_native(offer) ==> (r matches Ok(m)
            && is_swap_exact_in(m, sender@, self.pool_id, offer, ask))
    }

    fn provide_liquidity(&self, assets: AssetList, sender: Option<String>) -> (r: Result<
        OutboundMsg,
        CwDexError,
    >) {
        let coins = match to_native_coins(&assets) {
            Ok(c) => c,
            Err(e) => {
                return Err(e);
            },
        };
        let snd = match sender {
            Some(addr) => addr,
            None => {
                return Err(CwDexError::MissingSender);
            },
        };
        Ok(OutboundMsg::Osmosis(OsmosisMsg::JoinPool {
            sender: snd,
            pool_id: self.pool_id,
            share_out_amount: 0,
            token_in_maxs: coins,
        }))
    }

    fn withdraw_liquidity(&self, asset: Asset, sender: Option<String>) -> (r: Result<
        OutboundMsg,
        CwDexError,
    >) {
        let snd = match sender {
            Some(addr) => addr,
            None => {
                return Err(CwDexError::MissingSender);
            },
        };
        Ok(OutboundMsg::Osmosis(OsmosisMsg::ExitPool {
            sender: snd,
            pool_id: self.pool_id,
            share_in_amount: asset.amount,
            token_out_mins: Vec::new(),
        }))
    }

    fn swap_msg(&self, offer: Asset, ask: Asset, sender: String) -> (r: Result<
        OutboundMsg,
        CwDexError,
    >) {
        let out_denom = match &ask.info {
            AssetInfo::Native(denom) => denom.clone(),
            _ => {
                return Err(CwDexError::InvalidOutAsset);
            },
        };
        let token_in = match asset_to_coin(&offer) {
            Ok(c) => c,
            Err(e) => {
                return Err(e);
            },
        };
        let mut routes: Vec<crate::msg::SwapAmountInRoute> = Vec::new();
        routes.push(crate::msg::SwapAmountInRoute { pool_id: self.pool_id, token_out_denom: out_denom });
        Ok(OutboundMsg::Osmosis(OsmosisMsg::SwapExactAmountIn {
            sender,
            routes,
            token_in,
            token_out_min_amount: ask.amount,
        }))
    }
}

/// Locked staking on this venue. The lockup duration is in nanoseconds,
/// fixed at construction; the venue allows one day, one week or two weeks.
#[derive(Debug)]
pub struct OsmosisStaking {
    pub lockup_duration: u64,
}

/// What staking needs beyond the amount: the lock's owner.
#[derive(Debug)]
pub struct OsmosisStakeOptions {
    pub owner: String,
}

/// What unstaking needs beyond the amount: the lock's owner and which prior
/// lock to unwind.
#[derive(Debug)]
pub struct OsmosisUnstakeOptions {
    pub owner: String,
    pub lockup_id: u64,
}

impl Staking<OsmosisStakeOptions, OsmosisUnstakeOptions> for OsmosisStaking {
    /// Staking needs options (the owner) and a native amount; the lock
    /// message carries the owner, the configured duration and the staked coin.
    open spec fn stake_post(
        &self,
        amount: Asset,
        options: Option<OsmosisStakeOptions>,
        r: Result<Response, CwDexError>,
    ) -> bool {
        &&& options is None ==> r == Err::<Response, CwDexError>(CwDexError::MissingStakeOptions)
        &&& options is Some && !is_native(amount) ==> (r matches Err(e)
            && e matches CwDexError::UnsupportedAssetKind { info: bad }
            && info_eq(bad, amount.info))
        &&& options matches Some(o) ==> (is_native(amount) ==> (r matches Ok(resp)
            && resp.messages@.len() == 1
            && is_lock_tokens(resp.messages@[0], o.owner@, self.lockup_duration, amount)))
    }

    /// Unstaking needs options (owner and lock id) and a native amount; the
    /// unlock message begins unlocking that lock for the coin given.
    open spec fn unstake_post(
        &self,
        amount: Asset,
        options: Option<OsmosisUnstakeOptions>,
        r: Result<Response, CwDexError>,
    ) -> bool {
        &&& options is None ==> r == Err::<Response, CwDexError>(CwDexError::MissingUnstakeOptions)
        &&& options is Some && !is_native(amount) ==> (r matches Err(e)
            && e matches CwDexError::UnsupportedAssetKind { info: bad }
            && info_eq(bad, amount.info))
        &&& options matches Some(o) ==> (is_native(amount) ==> (r matches Ok(resp)
            && resp.messages@.len() == 1
            && is_begin_unlocking(resp.messages@[0], o.owner@, o.lockup_id, amount)))
    }

    /// Rewards distribute automatically every epoch on this venue: claiming
    /// is a no-op and the response carries no message.
    open spec fn claim_rewards_post(&self, options: Option<()>, r: Result<Response, CwDexError>) -> bool {
        r matches Ok(resp) && resp.messages@.len() == 0
    }

    fn stake(&self, amount: Asset, options: Option<OsmosisStakeOptions>) -> (r: Result<
        Response,
        CwDexError,
    >) {
        let o = match options {
            Some(o) => o,
            None => {
                return Err(CwDexError::MissingStakeOptions);
            },
        };
        let coin = match asset_to_coin(&amount) {
            Ok(c) => c,
            Err(e) => {
                return Err(e);
            },
        };
        let (duration_secs, duration_nanos) = split_duration(self.lockup_duration);
        let mut coins: Vec<Coin> = Vec::new();
        coins.push(coin);
        let mut messages: Vec<OutboundMsg> = Vec::new();
        messages.push(OutboundMsg::Osmosis(OsmosisMsg::LockTokens {
            owner: o.owner,
            duration_secs,
            duration_nanos,
            coins,
        }));
        Ok(Response { messages })
    }

    fn unstake(&self, amount: Asset, options: Option<OsmosisUnstakeOptions>) -> (r: Result<
        Response,
        CwDexError,
    >) {
        let o = match options {
            Some(o) => o,
            None => {
                return Err(CwDexError::MissingUnstakeOptions);
            },
        };
        let coin = match asset_to_coin(&amount) {
            Ok(c) => c,
            Err(e) => {
                return Err(e);
            },
        };
        let mut coins: Vec<Coin> = Vec::new();
        coins.push(coin);
        let mut messages: Vec<OutboundMsg> = Vec::new();
        messages.push(OutboundMsg::Osmosis(OsmosisMsg::BeginUnlocking {
            owner: o.owner,
            id: o.lockup_id,
            coins,
        }));
        Ok(Response { messages })
    }

    fn claim_rewards(&self, options: Option<()>) -> (r: Result<Response, CwDexError>) {
        Ok(Response { messages: Vec::new() })
    }
}

/// Superfluid staking on this venue: the lock is delegated to a validator
/// chosen at construction, through a different underlying mechanism than
/// [`OsmosisStaking`], behind the identical interface.
#[derive(Debug)]
pub struct OsmosisSuperfluidStaking {
    pub validator_address: String,
}

impl Staking<OsmosisStakeOptions, OsmosisUnstakeOptions> for OsmosisSuperfluidStaking {
    /// Staking needs options and a native amount; the message locks the coin
    /// and delegates it to the configured validator in one step.
    open spec fn stake_post(
        &self,
        amount: Asset,
        options: Option<OsmosisStakeOptions>,
        r: Result<Response, CwDexError>,
    ) -> bool {
        &&& options is None ==> r == Err::<Response, CwDexError>(CwDexError::MissingStakeOptions)
        &&& options is Some && !is_native(amount) ==> (r matches Err(e)
            && e matches CwDexError::UnsupportedAssetKind { info: bad }
            && info_eq(bad, amount.info))
        &&& options matches Some(o) ==> (is_native(amount) ==> (r matches Ok(resp)
            && resp.messages@.len() == 1
            && is_lock_superfluid(resp.messages@[0], o.owner@, self.validator_address@, amount)))
    }

    /// Unbonding a delegated lock names only the lock, never an amount: the
    /// amount argument is ignored, as the whole lock unbonds.
    open spec fn unstake_post(
        &self,
        amount: Asset,
        options: Option<OsmosisUnstakeOptions>,
        r: Result<Response, CwDexError>,
    ) -> bool {
        &&& options is None ==> r == Err::<Response, CwDexError>(CwDexError::MissingUnstakeOptions)
        &&& options matches Some(o) ==> (r matches Ok(resp)
            && resp.messages@.len() == 1
            && is_superfluid_unbond(resp.messages@[0], o.owner@, o.lockup_id))
    }

    /// Rewards distribute automatically every epoch on this venue: claiming
    /// is a no-op and the response carries no message.
    open spec fn claim_rewards_post(&self, options: Option<()>, r: Result<Response, CwDexError>) -> bool {
        r matches Ok(resp) && resp.messages@.len() == 0
    }

    fn stake(&self, amount: Asset, options: Option<OsmosisStakeOptions>) -> (r: Result<
        Response,
        CwDexError,
    >) {
        let o = match options {
            Some(o) => o,
            None => {
                return Err(CwDexError::MissingStakeOptions);
            },
        };
        let coin = match asset_to_coin(&amount) {
            Ok(c) => c,
            Err(e) => {
                return Err(e);
            },
        };
        let mut coins: Vec<Coin> = Vec::new();
        coins.push(coin);
        let mut messages: Vec<OutboundMsg> = Vec::new();
        messages.push(OutboundMsg::Osmosis(OsmosisMsg::LockAndSuperfluidDelegate {
            sender: o.owner,
            coins,
            val_addr: self.validator_address.clone(),
        }));
        Ok(Response { messages })
    }

    fn unstake(&self, amount: Asset, options: Option<OsmosisUnstakeOptions>) -> (r: Result<
        Response,
        CwDexError,
    >) {
        let o = match options {
            Some(o) => o,
            None => {
                return Err(CwDexError::MissingUnstakeOptions);
            },
        };
        let mut messages: Vec<OutboundMsg> = Vec::new();
        messages.push(OutboundMsg::Osmosis(OsmosisMsg::SuperfluidUnbondLock {
            sender: o.owner,
            lock_id: o.lockup_id,
        }));
        Ok(Response { messages })
    }

    fn claim_rewards(&self, options: Option<()>) -> (r: Result<Response, CwDexError>) {
        Ok(Response { messages: Vec::new() })
    }
}

} // verus!
