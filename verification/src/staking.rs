//! The uniform staking-operations interface each venue adapter implements.

use vstd::prelude::*;
use crate::asset::Asset;
use crate::error::CwDexError;
use crate::msg::Response;

verus! {

/// Uniform staking operations, parameterized by the venue's option records:
/// `S` carries what staking needs (an owner, a lock target), `U` what
/// unstaking needs (an owner, a lock identifier). A venue that distributes
/// rewards automatically documents `claim_rewards` as a no-op returning an
/// empty response. As in [`crate::pool::Pool`], each adapter states the exact
/// outcome relation of every operation and is proved to satisfy it.
pub trait Staking<S, U> {
    /// The exact outcome `stake` promises for these inputs.
    spec fn stake_post(&self, amount: Asset, options: Option<S>, r: Result<Response, CwDexError>) -> bool;

    /// The exact outcome `unstake` promises for these inputs.
    spec fn unstake_post(&self, amount: Asset, options: Option<U>, r: Result<Response, CwDexError>) -> bool;

    /// The exact outcome `claim_rewards` promises for these inputs.
    spec fn claim_rewards_post(&self, options: Option<()>, r: Result<Response, CwDexError>) -> bool;

    /// Build the venue's lock/bond message for `amount`.
    fn stake(&self, amount: Asset, options: Option<S>) -> (r: Result<Response, CwDexError>)
        ensures
            self.stake_post(amount, options, r),
    ;

    /// Build the venue's unlock/unbond message for `amount`.
    fn unstake(&self, amount: Asset, options: Option<U>) -> (r: Result<Response, CwDexError>)
        ensures
            self.unstake_post(amount, options, r),
    ;

    /// Build the venue's reward-claim message, or an empty response where the
    /// venue distributes rewards without one.
    fn claim_rewards(&self, options: Option<()>) -> (r: Result<Response, CwDexError>)
        ensures
            self.claim_rewards_post(options, r),
    ;
}

} // verus!
