//! The outbound message model: the unsubmitted payloads the adapters build.
//!
//! A venue message is returned fully structured; serializing it to the chain's
//! wire format and submitting it belong to the transport collaborator, not to
//! this layer. The one exception is the allowance-increase instruction, whose
//! inner execute payload is already the serialized token-contract message.

use vstd::prelude::*;

verus! {

/// A native coin: a denomination with an unsigned amount.
#[derive(Debug, PartialEq)]
pub struct Coin {
    pub denom: String,
    pub amount: u128,
}

/// One hop of a swap route: the pool to trade in and the denomination out.
#[derive(Debug, PartialEq)]
pub struct SwapAmountInRoute {
    pub pool_id: u64,
    pub token_out_denom: String,
}

/// The venue-native operations this layer knows how to request, carried with
/// every field the venue requires, ready for wire encoding by the transport.
#[derive(Debug, PartialEq)]
pub enum OsmosisMsg {
    /// Join a pool with at most the listed amounts per denomination.
    JoinPool { sender: String, pool_id: u64, share_out_amount: u128, token_in_maxs: Vec<Coin> },
    /// Exit a pool, burning the given share amount.
    ExitPool { sender: String, pool_id: u64, share_in_amount: u128, token_out_mins: Vec<Coin> },
    /// Swap an exact input along a route for at least the given output.
    SwapExactAmountIn {
        sender: String,
        routes: Vec<SwapAmountInRoute>,
        token_in: Coin,
        token_out_min_amount: u128,
    },
    /// Lock coins for the given duration to earn staking rewards.
    LockTokens { owner: String, duration_secs: i64, duration_nanos: i32, coins: Vec<Coin> },
    /// Begin unlocking a prior lock, identified by its id.
    BeginUnlocking { owner: String, id: u64, coins: Vec<Coin> },
    /// Lock coins and delegate them to a validator in one step.
    LockAndSuperfluidDelegate { sender: String, coins: Vec<Coin>, val_addr: String },
    /// Unbond a superfluid lock, identified by its id.
    SuperfluidUnbondLock { sender: String, lock_id: u64 },
}

/// An outbound, unsubmitted transaction message.
#[derive(Debug, PartialEq)]
pub enum OutboundMsg {
    /// Execute a contract with a serialized payload and attached native funds.
    WasmExecute { contract_addr: String, msg: Vec<u8>, funds: Vec<Coin> },
    /// A venue-native message, structured, for the transport to encode.
    Osmosis(OsmosisMsg),
}

/// The result of a staking operation: the messages to submit, possibly none.
#[derive(Debug, PartialEq)]
pub struct Response {
    pub messages: Vec<OutboundMsg>,
}

} // verus!
