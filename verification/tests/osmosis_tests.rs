use cw_dex::asset::{Asset, AssetInfo, AssetList};
use cw_dex::error::CwDexError;
use cw_dex::msg::{Coin, OsmosisMsg, OutboundMsg};
use cw_dex::osmosis::{
    OsmosisPool, OsmosisStakeOptions, OsmosisStaking, OsmosisSuperfluidStaking, OsmosisUnstakeOptions,
};
use cw_dex::pool::Pool;
use cw_dex::staking::Staking;

fn native_asset(denom: &str, amount: u128) -> Asset {
    Asset { info: AssetInfo::Native(denom.to_string()), amount }
}

fn cw20_asset(addr: &str, amount: u128) -> Asset {
    Asset { info: AssetInfo::Cw20(addr.to_string()), amount }
}

#[test]
fn provide_liquidity_builds_join_message() {
    let pool = OsmosisPool { pool_id: 42 };
    let assets = AssetList(vec![native_asset("uosmo", 100), native_asset("uatom", 200)]);
    let msg = pool.provide_liquidity(assets, Some("osmo1sender".to_string())).unwrap();
    match msg {
        OutboundMsg::Osmosis(OsmosisMsg::JoinPool { sender, pool_id, share_out_amount, token_in_maxs }) => {
            assert_eq!(sender, "osmo1sender");
            assert_eq!(pool_id, 42);
            assert_eq!(share_out_amount, 0);
            assert_eq!(token_in_maxs, vec![
                Coin { denom: "uosmo".to_string(), amount: 100 },
                Coin { denom: "uatom".to_string(), amount: 200 },
            ]);
        },
        other => panic!("expected a join message, got {:?}", other),
    }
}

#[test]
fn provide_liquidity_without_sender_fails() {
    let pool = OsmosisPool { pool_id: 42 };
    let assets = AssetList(vec![native_asset("uosmo", 100)]);
    assert_eq!(pool.provide_liquidity(assets, None), Err(CwDexError::MissingSender));
}

#[test]
fn provide_liquidity_rejects_contract_issued_asset() {
    let pool = OsmosisPool { pool_id: 42 };
    let assets = AssetList(vec![native_asset("uosmo", 100), cw20_asset("c1", 5)]);
    let r = pool.provide_liquidity(assets, Some("osmo1sender".to_string()));
    assert_eq!(
        r,
        Err(CwDexError::UnsupportedAssetKind { info: AssetInfo::Cw20("c1".to_string()) }),
    );
}

#[test]
fn withdraw_liquidity_builds_exit_message() {
    let pool = OsmosisPool { pool_id: 7 };
    let lp = native_asset("gamm/pool/7", 555);
    let msg = pool.withdraw_liquidity(lp, Some("osmo1sender".to_string())).unwrap();
    match msg {
        OutboundMsg::Osmosis(OsmosisMsg::ExitPool { sender, pool_id, share_in_amount, token_out_mins }) => {
            assert_eq!(sender, "osmo1sender");
            assert_eq!(pool_id, 7);
            assert_eq!(share_in_amount, 555);
            assert!(token_out_mins.is_empty());
        },
        other => panic!("expected an exit message, got {:?}", other),
    }
}

#[test]
fn withdraw_liquidity_without_sender_fails() {
    let pool = OsmosisPool { pool_id: 7 };
    let r = pool.withdraw_liquidity(native_asset("gamm/pool/7", 555), None);
    assert_eq!(r, Err(CwDexError::MissingSender));
}

#[test]
fn swap_msg_builds_single_route_swap() {
    let pool = OsmosisPool { pool_id: 3 };
    let offer = native_asset("uosmo", 1000);
    let ask = native_asset("uatom", 90);
    let msg = pool.swap_msg(offer, ask, "osmo1sender".to_string()).unwrap();
    match msg {
        OutboundMsg::Osmosis(OsmosisMsg::SwapExactAmountIn {
            sender,
            routes,
            token_in,
            token_out_min_amount,
        }) => {
            assert_eq!(sender, "osmo1sender");
            assert_eq!(routes.len(), 1);
            assert_eq!(routes[0].pool_id, 3);
            assert_eq!(routes[0].token_out_denom, "uatom");
            assert_eq!(token_in, Coin { denom: "uosmo".to_string(), amount: 1000 });
            assert_eq!(token_out_min_amount, 90);
        },
        other => panic!("expected a swap message, got {:?}", other),
    }
}

#[test]
fn swap_msg_rejects_contract_issued_ask() {
    let pool = OsmosisPool { pool_id: 3 };
    let offer = native_asset("uosmo", 1000);
    let ask = cw20_asset("c1", 90);
    assert_eq!(pool.swap_msg(offer, ask, "s".to_string()), Err(CwDexError::InvalidOutAsset));
}

#[test]
fn swap_msg_rejects_contract_issued_offer() {
    let pool = OsmosisPool { pool_id: 3 };
    let offer = cw20_asset("c1", 1000);
    let ask = native_asset("uatom", 90);
    let r = pool.swap_msg(offer, ask, "s".to_string());
    assert_eq!(
        r,
        Err(CwDexError::UnsupportedAssetKind { info: AssetInfo::Cw20("c1".to_string()) }),
    );
}

#[test]
fn stake_builds_lock_message_with_split_duration() {
    let staking = OsmosisStaking { lockup_duration: 86_400_000_000_123 };
    let amount = native_asset("gamm/pool/1", 70);
    let resp = staking.stake(amount, Some(OsmosisStakeOptions { owner: "osmo1owner".to_string() })).unwrap();
    assert_eq!(resp.messages.len(), 1);
    match &resp.messages[0] {
        OutboundMsg::Osmosis(OsmosisMsg::LockTokens { owner, duration_secs, duration_nanos, coins }) => {
            assert_eq!(owner, "osmo1owner");
            assert_eq!(*duration_secs, 86_400);
            assert_eq!(*duration_nanos, 123);
            assert_eq!(coins, &vec![Coin { denom: "gamm/pool/1".to_string(), amount: 70 }]);
        },
        other => panic!("expected a lock message, got {:?}", other),
    }
}

#[test]
fn stake_without_options_fails() {
    let staking = OsmosisStaking { lockup_duration: 1 };
    let r = staking.stake(native_asset("gamm/pool/1", 70), None);
    assert_eq!(r, Err(CwDexError::MissingStakeOptions));
}

#[test]
fn stake_rejects_contract_issued_amount() {
    let staking = OsmosisStaking { lockup_duration: 1 };
    let r = staking.stake(cw20_asset("c1", 70), Some(OsmosisStakeOptions { owner: "o".to_string() }));
    assert_eq!(
        r,
        Err(CwDexError::UnsupportedAssetKind { info: AssetInfo::Cw20("c1".to_string()) }),
    );
}

#[test]
fn unstake_builds_begin_unlocking_message() {
    let staking = OsmosisStaking { lockup_duration: 1 };
    let amount = native_asset("gamm/pool/1", 70);
    let options = OsmosisUnstakeOptions { owner: "osmo1owner".to_string(), lockup_id: 99 };
    let resp = staking.unstake(amount, Some(options)).unwrap();
    assert_eq!(resp.messages.len(), 1);
    match &resp.messages[0] {
        OutboundMsg::Osmosis(OsmosisMsg::BeginUnlocking { owner, id, coins }) => {
            assert_eq!(owner, "osmo1owner");
            assert_eq!(*id, 99);
            assert_eq!(coins, &vec![Coin { denom: "gamm/pool/1".to_string(), amount: 70 }]);
        },
        other => panic!("expected an unlock message, got {:?}", other),
    }
}

#[test]
fn unstake_without_options_fails() {
    let staking = OsmosisStaking { lockup_duration: 1 };
    let r = staking.unstake(native_asset("gamm/pool/1", 70), None);
    assert_eq!(r, Err(CwDexError::MissingUnstakeOptions));
}

#[test]
fn claim_rewards_is_a_no_op() {
    let staking = OsmosisStaking { lockup_duration: 1 };
    let resp = staking.claim_rewards(None).unwrap();
    assert!(resp.messages.is_empty());
}

#[test]
fn superfluid_stake_builds_delegating_lock() {
    let staking = OsmosisSuperfluidStaking { validator_address: "osmovaloper1x".to_string() };
    let amount = native_asset("gamm/pool/1", 70);
    let resp = staking.stake(amount, Some(OsmosisStakeOptions { owner: "osmo1owner".to_string() })).unwrap();
    assert_eq!(resp.messages.len(), 1);
    match &resp.messages[0] {
        OutboundMsg::Osmosis(OsmosisMsg::LockAndSuperfluidDelegate { sender, coins, val_addr }) => {
            assert_eq!(sender, "osmo1owner");
            assert_eq!(coins, &vec![Coin { denom: "gamm/pool/1".to_string(), amount: 70 }]);
            assert_eq!(val_addr, "osmovaloper1x");
        },
        other => panic!("expected a lock-and-delegate message, got {:?}", other),
    }
}

#[test]
fn superfluid_stake_without_options_fails() {
    let staking = OsmosisSuperfluidStaking { validator_address: "v".to_string() };
    let r = staking.stake(native_asset("gamm/pool/1", 70), None);
    assert_eq!(r, Err(CwDexError::MissingStakeOptions));
}

#[test]
fn superfluid_unstake_names_only_the_lock() {
    let staking = OsmosisSuperfluidStaking { validator_address: "v".to_string() };
    // the amount is ignored: even a contract-issued asset does not fail
    let amount = cw20_asset("c1", 5);
    let options = OsmosisUnstakeOptions { owner: "osmo1owner".to_string(), lockup_id: 12 };
    let resp = staking.unstake(amount, Some(options)).unwrap();
    assert_eq!(resp.messages.len(), 1);
    match &resp.messages[0] {
        OutboundMsg::Osmosis(OsmosisMsg::SuperfluidUnbondLock { sender, lock_id }) => {
            assert_eq!(sender, "osmo1owner");
            assert_eq!(*lock_id, 12);
        },
        other => panic!("expected an unbond message, got {:?}", other),
    }
}

#[test]
fn superfluid_unstake_without_options_fails() {
    let staking = OsmosisSuperfluidStaking { validator_address: "v".to_string() };
    let r = staking.unstake(native_asset("gamm/pool/1", 70), None);
    assert_eq!(r, Err(CwDexError::MissingUnstakeOptions));
}

#[test]
fn superfluid_claim_rewards_is_a_no_op() {
    let staking = OsmosisSuperfluidStaking { validator_address: "v".to_string() };
    let resp = staking.claim_rewards(None).unwrap();
    assert!(resp.messages.is_empty());
}
