//! The constant-product venue adapter's building blocks: the venue-local asset
//! model, the funds/allowance preparer, and the pool's integer liquidity math.

use vstd::prelude::*;
use vstd::arithmetic::div_mod::{
    lemma_div_is_ordered, lemma_div_multiples_vanish, lemma_fundamental_div_mod, lemma_mod_bound,
};
use crate::asset::{Asset, AssetInfo, AssetList, asset_eq, info_eq, native_denom};
use crate::error::CwDexError;
use crate::msg::{Coin, OutboundMsg};

verus! {

// ------------------------- venue-local asset model -------------------------

/// The venue-local asset kind: exactly the two kinds the venue supports.
#[derive(Debug, PartialEq)]
pub enum JunoAssetInfo {
    Native(String),
    Cw20(String),
}

/// A venue-local asset: a supported kind with an amount.
#[derive(Debug, PartialEq)]
pub struct JunoAsset {
    pub info: JunoAssetInfo,
    pub amount: u128,
}

/// A venue-local asset list, ordered as the canonical list it came from.
#[derive(Debug, PartialEq)]
pub struct JunoAssetList(pub Vec<JunoAsset>);

/// What a canonical kind converts to, when it converts at all.
pub open spec fn juno_info_of(info: AssetInfo) -> Option<JunoAssetInfo> {
    match info {
        AssetInfo::Native(d) => Some(JunoAssetInfo::Native(d)),
        AssetInfo::Cw20(a) => Some(JunoAssetInfo::Cw20(a)),
        AssetInfo::Cw1155(_, _) => None,
    }
}

/// Structural equality of venue kinds.
pub open spec fn juno_info_eq(a: JunoAssetInfo, b: JunoAssetInfo) -> bool {
    match a {
        JunoAssetInfo::Native(d1) => match b {
            JunoAssetInfo::Native(d2) => d1@ == d2@,
            _ => false,
        },
        JunoAssetInfo::Cw20(a1) => match b {
            JunoAssetInfo::Cw20(a2) => a1@ == a2@,
            _ => false,
        },
    }
}

/// Variant-wise equality between a venue kind and a canonical kind: native
/// compares denominations, contract-issued compares addresses, and distinct
/// variants are never equal.
pub open spec fn juno_info_matches(a: JunoAssetInfo, b: AssetInfo) -> bool {
    match a {
        JunoAssetInfo::Native(d1) => match b {
            AssetInfo::Native(d2) => d1@ == d2@,
            _ => false,
        },
        JunoAssetInfo::Cw20(a1) => match b {
            AssetInfo::Cw20(a2) => a1@ == a2@,
            _ => false,
        },
    }
}

impl JunoAssetInfo {
    /// Validating conversion from the canonical model: native and
    /// contract-issued kinds map one-to-one, anything else is unsupported.
    pub fn try_from(info: &AssetInfo) -> (r: Result<JunoAssetInfo, CwDexError>)
        ensures
            juno_info_of(*info) matches Some(j) ==> r == Ok::<JunoAssetInfo, CwDexError>(j),
            juno_info_of(*info) is None ==> (r matches Err(e) && e matches CwDexError::UnsupportedAssetKind { info: bad } && info_eq(bad, *info)),
    {
        match info {
            AssetInfo::Native(d) => Ok(JunoAssetInfo::Native(d.clone())),
            AssetInfo::Cw20(a) => Ok(JunoAssetInfo::Cw20(a.clone())),
            AssetInfo::Cw1155(_, _) => Err(CwDexError::UnsupportedAssetKind { info: info.dup() }),
        }
    }

    /// Total conversion back to the canonical model: the venue kinds are a
    /// strict subset of the canonical ones.
    pub fn to_canonical(&self) -> (r: AssetInfo)
        ensures
            juno_info_matches(*self, r),
            juno_info_of(r) == Some(*self),
    {
        match self {
            JunoAssetInfo::Native(d) => AssetInfo::Native(d.clone()),
            JunoAssetInfo::Cw20(a) => AssetInfo::Cw20(a.clone()),
        }
    }

    /// Structural equality check against another venue kind.
    pub fn eq_info(&self, other: &JunoAssetInfo) -> (r: bool)
        ensures
            r == juno_info_eq(*self, *other),
    {
        match (self, other) {
            (JunoAssetInfo::Native(d1), JunoAssetInfo::Native(d2)) => *d1 == *d2,
            (JunoAssetInfo::Cw20(a1), JunoAssetInfo::Cw20(a2)) => *a1 == *a2,
            _ => false,
        }
    }

    /// Variant-wise comparison against a canonical kind; never coerces.
    pub fn matches_info(&self, other: &AssetInfo) -> (r: bool)
        ensures
            r == juno_info_matches(*self, *other),
    {
        match (self, other) {
            (JunoAssetInfo::Native(d1), AssetInfo::Native(d2)) => *d1 == *d2,
            (JunoAssetInfo::Cw20(a1), AssetInfo::Cw20(a2)) => *a1 == *a2,
            _ => false,
        }
    }
}

impl JunoAsset {
    /// Validating conversion of one canonical asset, keeping its amount.
    pub fn try_from(asset: &Asset) -> (r: Result<JunoAsset, CwDexError>)
        ensures
            juno_info_of(asset.info) matches Some(j) ==> (r matches Ok(ja) && ja.info == j && ja.amount == asset.amount),
            juno_info_of(asset.info) is None ==> (r matches Err(e) && e matches CwDexError::UnsupportedAssetKind { info: bad } && info_eq(bad, asset.info)),
    {
        match JunoAssetInfo::try_from(&asset.info) {
            Ok(info) => Ok(JunoAsset { info, amount: asset.amount }),
            Err(e) => Err(e),
        }
    }

    /// Total conversion back to a canonical asset.
    pub fn to_canonical(&self) -> (r: Asset)
        ensures
            juno_info_matches(self.info, r.info),
            r.amount == self.amount,
    {
        Asset { info: self.info.to_canonical(), amount: self.amount }
    }
}

impl JunoAssetList {
    /// Validating conversion of a whole canonical list, in order; fails on
    /// the first entry of an unsupported kind.
    pub fn try_from(list: &AssetList) -> (r: Result<JunoAssetList, CwDexError>)
        ensures
            r matches Ok(jl) ==> {
                &&& jl.0@.len() == list.0@.len()
                &&& forall|i: int| 0 <= i < list.0@.len()
                    ==> juno_info_of(#[trigger] list.0@[i].info) == Some(jl.0@[i].info)
                        && jl.0@[i].amount == list.0@[i].amount
            },
            r matches Err(e) ==> (e matches CwDexError::UnsupportedAssetKind { info: bad }
                && exists|i: int| {
                    &&& 0 <= i < list.0@.len()
                    &&& juno_info_of(#[trigger] list.0@[i].info) is None
                    &&& info_eq(bad, list.0@[i].info)
                    &&& forall|j: int| 0 <= j < i ==> juno_info_of(#[trigger] list.0@[j].info) is Some
                }),
            (forall|i: int| 0 <= i < list.0@.len() ==> juno_info_of(#[trigger] list.0@[i].info) is Some) ==> r is Ok,
    {
        let mut out: Vec<JunoAsset> = Vec::new();
        let n = list.0.len();
        let mut i: usize = 0;
        while i < n
            invariant
                n == list.0@.len(),
                0 <= i <= n,
                out@.len() == i,
                forall|j: int| 0 <= j < i
                    ==> juno_info_of(#[trigger] list.0@[j].info) == Some(out@[j].info)
                        && out@[j].amount == list.0@[j].amount,
            decreases n - i,
        {
            match JunoAsset::try_from(&list.0[i]) {
                Ok(ja) => out.push(ja),
                Err(e) => {
                    return Err(e);
                },
            }
            i += 1;
        }
        Ok(JunoAssetList(out))
    }

    /// The list converted back to the canonical model, entry by entry.
    pub fn to_canonical(&self) -> (r: AssetList)
        ensures
            r.0@.len() == self.0@.len(),
            forall|i: int| 0 <= i < self.0@.len()
                ==> juno_info_matches(#[trigger] self.0@[i].info, r.0@[i].info)
                    && r.0@[i].amount == self.0@[i].amount,
    {
        let mut out: Vec<Asset> = Vec::new();
        let n = self.0.len();
        let mut i: usize = 0;
        while i < n
            invariant
                n == self.0@.len(),
                0 <= i <= n,
                out@.len() == i,
                forall|j: int| 0 <= j < i
                    ==> juno_info_matches(#[trigger] self.0@[j].info, out@[j].info)
                        && out@[j].amount == self.0@[j].amount,
            decreases n - i,
        {
            out.push(self.0[i].to_canonical());
            i += 1;
        }
        AssetList(out)
    }

    /// Linear lookup by kind: the first entry whose kind equals the target,
    /// or `TokenNotFound` when no entry matches.
    pub fn find(&self, token: &JunoAssetInfo) -> (r: Result<&JunoAsset, CwDexError>)
        ensures
            r matches Ok(a) ==> exists|i: int| {
                &&& 0 <= i < self.0@.len()
                &&& *a == self.0@[i]
                &&& juno_info_eq(#[trigger] self.0@[i].info, *token)
                &&& forall|j: int| 0 <= j < i ==> !juno_info_eq(#[trigger] self.0@[j].info, *token)
            },
            r matches Err(e) ==> e == CwDexError::TokenNotFound
                && forall|i: int| 0 <= i < self.0@.len()
                    ==> !juno_info_eq(#[trigger] self.0@[i].info, *token),
    {
        let n = self.0.len();
        let mut i: usize = 0;
        while i < n
            invariant
                n == self.0@.len(),
                0 <= i <= n,
                forall|j: int| 0 <= j < i ==> !juno_info_eq(#[trigger] self.0@[j].info, *token),
            decreases n - i,
        {
            if self.0[i].info.eq_info(token) {
                return Ok(&self.0[i]);
            }
            i += 1;
        }
        Err(CwDexError::TokenNotFound)
    }
}

// ----------------------------- liquidity math -------------------------------

/// LP shares minted for a `token1` deposit: on the first deposit the deposit
/// itself (one-to-one bootstrap), afterwards `token1 * supply / reserve`,
/// rounded down.
pub open spec fn spec_lp_mint_amount(token1_amount: int, liquidity_supply: int, token1_reserve: int) -> int {
    if liquidity_supply == 0 {
        token1_amount
    } else {
        token1_amount * liquidity_supply / token1_reserve
    }
}

/// The second-leg deposit matching a `token1` deposit: the caller's maximum on
/// the first deposit, afterwards `token1 * reserve2 / reserve1` rounded down,
/// plus one in the pool's favour so truncation never under-collateralizes.
pub open spec fn spec_token2_required(
    max_token: int,
    token1_amount: int,
    liquidity_supply: int,
    token2_reserve: int,
    token1_reserve: int,
) -> int {
    if liquidity_supply == 0 {
        max_token
    } else {
        token1_amount * token2_reserve / token1_reserve + 1
    }
}

/// The first-leg deposit backing a given second-leg amount:
/// `(token2 - 1) * reserve1 / reserve2` rounded down. The minus one undoes the
/// plus-one bias of the forward direction, so a round trip never grows.
pub open spec fn spec_token1_required(token2_amount: int, token2_reserve: int, token1_reserve: int) -> int {
    (token2_amount - 1) * token1_reserve / token2_reserve
}

/// The amount of LP tokens minted for a deposit of `token1_amount`, given the
/// pool's LP supply and its reserve of the deposited token.
pub fn juno_get_lp_token_amount_to_mint(
    token1_amount: u128,
    liquidity_supply: u128,
    token1_reserve: u128,
) -> (r: Result<u128, CwDexError>)
    ensures
        liquidity_supply == 0 ==> r == Ok::<u128, CwDexError>(token1_amount),
        liquidity_supply != 0 && token1_amount * liquidity_supply > u128::MAX
            ==> r == Err::<u128, CwDexError>(CwDexError::Overflow),
        liquidity_supply != 0 && token1_amount * liquidity_supply <= u128::MAX && token1_reserve == 0
            ==> r == Err::<u128, CwDexError>(CwDexError::DivideByZero),
        liquidity_supply != 0 && token1_amount * liquidity_supply <= u128::MAX && token1_reserve != 0
            ==> r == Ok::<u128, CwDexError>(
                spec_lp_mint_amount(token1_amount as int, liquidity_supply as int, token1_reserve as int) as u128,
            ),
{
    if liquidity_supply == 0 {
        Ok(token1_amount)
    } else {
        match token1_amount.checked_mul(liquidity_supply) {
            None => Err(CwDexError::Overflow),
            Some(p) => match p.checked_div(token1_reserve) {
                None => Err(CwDexError::DivideByZero),
                Some(q) => Ok(q),
            },
        }
    }
}

/// The amount of the second token that must accompany a deposit of
/// `token1_amount`, rounded up in the pool's favour.
pub fn juno_get_token2_amount_required(
    max_token: u128,
    token1_amount: u128,
    liquidity_supply: u128,
    token2_reserve: u128,
    token1_reserve: u128,
) -> (r: Result<u128, CwDexError>)
    ensures
        liquidity_supply == 0 ==> r == Ok::<u128, CwDexError>(max_token),
        liquidity_supply != 0 && token1_amount * token2_reserve > u128::MAX
            ==> r == Err::<u128, CwDexError>(CwDexError::Overflow),
        liquidity_supply != 0 && token1_amount * token2_reserve <= u128::MAX && token1_reserve == 0
            ==> r == Err::<u128, CwDexError>(CwDexError::DivideByZero),
        liquidity_supply != 0 && token1_amount * token2_reserve <= u128::MAX && token1_reserve != 0
            && token1_amount * token2_reserve / (token1_reserve as int) + 1 > u128::MAX
            ==> r == Err::<u128, CwDexError>(CwDexError::Overflow),
        liquidity_supply != 0 && token1_amount * token2_reserve <= u128::MAX && token1_reserve != 0
            && token1_amount * token2_reserve / (token1_reserve as int) + 1 <= u128::MAX
            ==> r == Ok::<u128, CwDexError>(
                spec_token2_required(
                    max_token as int,
                    token1_amount as int,
                    liquidity_supply as int,
                    token2_reserve as int,
                    token1_reserve as int,
                ) as u128,
            ),
{
    if liquidity_supply == 0 {
        Ok(max_token)
    } else {
        match token1_amount.checked_mul(token2_reserve) {
            None => Err(CwDexError::Overflow),
            Some(p) => match p.checked_div(token1_reserve) {
                None => Err(CwDexError::DivideByZero),
                Some(q) => match q.checked_add(1) {
                    None => Err(CwDexError::Overflow),
                    Some(t2) => Ok(t2),
                },
            },
        }
    }
}

/// The reverse of [`juno_get_token2_amount_required`]: how much of the first
/// token a given second-leg amount backs.
pub fn juno_get_token1_amount_required(
    token2_amount: u128,
    token2_reserve: u128,
    token1_reserve: u128,
) -> (r: Result<u128, CwDexError>)
    ensures
        token2_amount == 0 ==> r == Err::<u128, CwDexError>(CwDexError::Overflow),
        token2_amount != 0 && (token2_amount - 1) * token1_reserve > u128::MAX
            ==> r == Err::<u128, CwDexError>(CwDexError::Overflow),
        token2_amount != 0 && (token2_amount - 1) * token1_reserve <= u128::MAX && token2_reserve == 0
            ==> r == Err::<u128, CwDexError>(CwDexError::DivideByZero),
        token2_amount != 0 && (token2_amount - 1) * token1_reserve <= u128::MAX && token2_reserve != 0
            ==> r == Ok::<u128, CwDexError>(
                spec_token1_required(token2_amount as int, token2_reserve as int, token1_reserve as int) as u128,
            ),
{
    match token2_amount.checked_sub(1) {
        None => Err(CwDexError::Overflow),
        Some(t) => match t.checked_mul(token1_reserve) {
            None => Err(CwDexError::Overflow),
            Some(p) => match p.checked_div(token2_reserve) {
                None => Err(CwDexError::DivideByZero),
                Some(q) => Ok(q),
            },
        },
    }
}

/// A deposit of zero mints zero LP shares once the pool is live.
pub proof fn lemma_lp_mint_zero_deposit(liquidity_supply: int, token1_reserve: int)
    requires
        liquidity_supply > 0,
        token1_reserve > 0,
    ensures
        spec_lp_mint_amount(0, liquidity_supply, token1_reserve) == 0,
{
    assert(0 * liquidity_supply == 0);
    assert(0int / token1_reserve == 0) by {
        lemma_div_multiples_vanish(0, token1_reserve);
    }
}

/// Round-trip bound: computing the second leg from a first leg and then the
/// first leg back from that second leg never asks for more than the original
/// first leg. Rounding is always in the pool's favour, never the depositor's.
pub proof fn lemma_round_trip_bound(
    max_token: int,
    token1_amount: int,
    liquidity_supply: int,
    token2_reserve: int,
    token1_reserve: int,
)
    requires
        token1_amount > 0,
        liquidity_supply > 0,
        token1_reserve > 0,
        token2_reserve > 0,
    ensures
        spec_token1_required(
            spec_token2_required(max_token, token1_amount, liquidity_supply, token2_reserve, token1_reserve),
            token2_reserve,
            token1_reserve,
        ) <= token1_amount,
{
    let q = token1_amount * token2_reserve / token1_reserve;
    lemma_fundamental_div_mod(token1_amount * token2_reserve, token1_reserve);
    lemma_mod_bound(token1_amount * token2_reserve, token1_reserve);
    assert(token1_reserve * q <= token1_amount * token2_reserve);
    assert(q * token1_reserve <= token1_amount * token2_reserve) by {
        assert(token1_reserve * q == q * token1_reserve) by (nonlinear_arith);
    }
    lemma_div_is_ordered(q * token1_reserve, token1_amount * token2_reserve, token2_reserve);
    assert(token2_reserve * token1_amount / token2_reserve == token1_amount) by {
        lemma_div_multiples_vanish(token1_amount, token2_reserve);
    }
    assert(token1_amount * token2_reserve == token2_reserve * token1_amount) by (nonlinear_arith);
}

// ----------------------- funds/allowance preparation ------------------------

/// Whether the declared funds contain a coin with exactly this denomination
/// and amount.
pub open spec fn contains_coin(funds: Seq<Coin>, denom: Seq<char>, amount: u128) -> bool {
    exists|j: int| 0 <= j < funds.len() && #[trigger] funds[j].denom@ == denom && funds[j].amount == amount
}

/// Whether one asset passes the preparer: a native asset must appear verbatim
/// in the declared funds, a contract-issued asset always passes (it is pulled
/// by allowance, not attached), and any other kind is rejected.
pub open spec fn asset_ok(a: Asset, funds: Seq<Coin>) -> bool {
    match a.info {
        AssetInfo::Native(d) => contains_coin(funds, d@, a.amount),
        AssetInfo::Cw20(_) => true,
        AssetInfo::Cw1155(_, _) => false,
    }
}

/// Whether every asset in the list passes the preparer.
pub open spec fn all_ok(s: Seq<Asset>, funds: Seq<Coin>) -> bool {
    forall|i: int| 0 <= i < s.len() ==> asset_ok(#[trigger] s[i], funds)
}

/// The native entries of the list, in order, as the coins to attach.
pub open spec fn native_coins(s: Seq<Asset>) -> Seq<Coin>
    decreases s.len(),
{
    if s.len() == 0 {
        Seq::empty()
    } else {
        let rest = native_coins(s.drop_last());
        match s.last().info {
            AssetInfo::Native(d) => rest.push(Coin { denom: d, amount: s.last().amount }),
            _ => rest,
        }
    }
}

/// The contract-issued entries of the list, in order.
pub open spec fn cw20_assets(s: Seq<Asset>) -> Seq<Asset>
    decreases s.len(),
{
    if s.len() == 0 {
        Seq::empty()
    } else {
        let rest = cw20_assets(s.drop_last());
        match s.last().info {
            AssetInfo::Cw20(_) => rest.push(s.last()),
            _ => rest,
        }
    }
}

/// The serialized allowance-increase payload the token contract executes:
/// grant `spender` the right to pull `amount`, expiring at `expire_height`.
/// The bytes are a function of those three values alone.
pub uninterp spec fn increase_allowance_bytes(spender: Seq<char>, amount: u128, expire_height: u64) -> Seq<u8>;

/// Relies on cosmwasm_std::to_binary over cw20::Cw20ExecuteMsg: serializing
/// the allowance-increase message is deterministic in spender, amount and
/// expiry height, and never fails — the serializer writes strings and
/// integers into a growable in-memory buffer, and nothing in this message's
/// derived serialization raises a custom error.
#[verifier::external_body]
fn encode_increase_allowance(spender: &String, amount: u128, expire_height: u64) -> (r: Vec<u8>)
    ensures
        r@ == increase_allowance_bytes(spender@, amount, expire_height),
{
    let msg = cw20::Cw20ExecuteMsg::IncreaseAllowance {
        spender: spender.clone(),
        amount: cosmwasm_std::Uint128::new(amount),
        expires: Some(cw_utils::Expiration::AtHeight(expire_height)),
    };
    cosmwasm_std::to_binary(&msg).unwrap().to_vec()
}

/// One outgoing message that increases an allowance: an execute on the token
/// contract of `a` (which must be contract-issued), whose payload grants
/// `spender` exactly `a.amount` until `expire_height`, with no funds attached.
pub open spec fn is_allowance_msg(m: OutboundMsg, a: Asset, spender: Seq<char>, expire_height: u64) -> bool {
    &&& m matches OutboundMsg::WasmExecute { contract_addr, msg, funds }
    &&& a.info matches AssetInfo::Cw20(token_addr)
    &&& contract_addr@ == token_addr@
    &&& msg@ == increase_allowance_bytes(spender, a.amount, expire_height)
    &&& funds@.len() == 0
}

/// The offending asset of a failed preparation: the first entry that does not
/// pass, every entry before it passing.
pub open spec fn first_bad_is(s: Seq<Asset>, funds: Seq<Coin>, a: Asset) -> bool {
    exists|i: int| {
        &&& 0 <= i < s.len()
        &&& !asset_ok(#[trigger] s[i], funds)
        &&& asset_eq(a, s[i])
        &&& forall|j: int| 0 <= j < i ==> asset_ok(#[trigger] s[j], funds)
    }
}

/// Whether the declared funds hold exactly this coin.
fn coins_contain(funds: &Vec<Coin>, denom: &String, amount: u128) -> (r: bool)
    ensures
        r == contains_coin(funds@, denom@, amount),
{
    let n = funds.len();
    let mut j: usize = 0;
    while j < n
        invariant
            n == funds@.len(),
            0 <= j <= n,
            forall|k: int| 0 <= k < j ==> !(#[trigger] funds@[k].denom@ == denom@ && funds@[k].amount == amount),
        decreases n - j,
    {
        if funds[j].denom == *denom && funds[j].amount == amount {
            return true;
        }
        j += 1;
    }
    false
}

/// Split an asset list into the native coins to attach to the outgoing call
/// and the allowance-increase messages that let `spender` pull the
/// contract-issued entries, each allowance expiring one block after `height`.
///
/// Native entries must appear verbatim (same denomination and amount) in the
/// declared `funds`; the first entry that is missing, or that is of any other
/// kind, fails the whole preparation with `InvalidInAsset` and no partial
/// output. On a list with no such entry the preparation always succeeds, and
/// both outputs keep the original list order.
pub fn prepare_funds_and_increase_allowances(
    height: u64,
    funds: &Vec<Coin>,
    assets: &AssetList,
    spender: &String,
) -> (r: Result<(Vec<Coin>, Vec<OutboundMsg>), CwDexError>)
    requires
        height < u64::MAX,
    ensures
        r is Ok <==> all_ok(assets.0@, funds@),
        r matches Ok(out) ==> {
            &&& out.0@ == native_coins(assets.0@)
            &&& out.1@.len() == cw20_assets(assets.0@).len()
            &&& forall|k: int| 0 <= k < out.1@.len()
                ==> is_allowance_msg(#[trigger] out.1@[k], cw20_assets(assets.0@)[k], spender@, (height + 1) as u64)
        },
        r matches Err(e) ==> (e matches CwDexError::InvalidInAsset { a }
            && first_bad_is(assets.0@, funds@, a)),
{
    let mut native_out: Vec<Coin> = Vec::new();
    let mut cw20_list: Vec<Asset> = Vec::new();
    let n = assets.0.len();
    let mut i: usize = 0;
    while i < n
        invariant
            n == assets.0@.len(),
            0 <= i <= n,
            forall|j: int| 0 <= j < i ==> asset_ok(#[trigger] assets.0@[j], funds@),
            native_out@ == native_coins(assets.0@.subrange(0, i as int)),
            cw20_list@ == cw20_assets(assets.0@.subrange(0, i as int)),
        decreases n - i,
    {
        let ghost pre = assets.0@.subrange(0, i as int);
        let ghost post = assets.0@.subrange(0, i as int + 1);
        proof {
            assert(post.drop_last() =~= pre);
            assert(post.last() == assets.0@[i as int]);
        }
        let a = &assets.0[i];
        match &a.info {
            AssetInfo::Native(d) => {
                if coins_contain(funds, d, a.amount) {
                    native_out.push(Coin { denom: d.clone(), amount: a.amount });
                } else {
                    return Err(CwDexError::InvalidInAsset { a: a.dup() });
                }
            },
            AssetInfo::Cw20(_) => {
                cw20_list.push(a.dup());
            },
            AssetInfo::Cw1155(_, _) => {
                return Err(CwDexError::InvalidInAsset { a: a.dup() });
            },
        }
        i += 1;
    }
    proof {
        assert(assets.0@.subrange(0, n as int) =~= assets.0@);
    }
    let expire_height = height + 1;
    let mut msgs: Vec<OutboundMsg> = Vec::new();
    let m = cw20_list.len();
    let mut k: usize = 0;
    while k < m
        invariant
            m == cw20_list@.len(),
            0 <= k <= m,
            cw20_list@ == cw20_assets(assets.0@),
            all_ok(assets.0@, funds@),
            expire_height == height + 1,
            msgs@.len() == k,
            forall|t: int| 0 <= t < k
                ==> is_allowance_msg(#[trigger] msgs@[t], cw20_list@[t], spender@, expire_height),
        decreases m - k,
    {
        proof {
            lemma_cw20_assets_are_cw20(assets.0@);
        }
        let a = &cw20_list[k];
        match &a.info {
            AssetInfo::Cw20(addr) => {
                let bytes = encode_increase_allowance(spender, a.amount, expire_height);
                msgs.push(OutboundMsg::WasmExecute {
                    contract_addr: addr.clone(),
                    msg: bytes,
                    funds: Vec::new(),
                });
            },
            // unreachable: every entry selected into this list is contract-issued
            _ => {
                proof {
                    assert(false);
                }
            },
        }
        k += 1;
    }
    Ok((native_out, msgs))
}

/// Every entry selected by [`cw20_assets`] is contract-issued.
proof fn lemma_cw20_assets_are_cw20(s: Seq<Asset>)
    ensures
        forall|i: int| 0 <= i < cw20_assets(s).len() ==> #[trigger] cw20_assets(s)[i].info matches AssetInfo::Cw20(_),
    decreases s.len(),
{
    if s.len() > 0 {
        lemma_cw20_assets_are_cw20(s.drop_last());
    }
}

// ------------------------------ preparer laws -------------------------------

/// Every native asset of a prepared list contributes its coin to the attached
/// funds, and no allowance message stands for it: the allowance messages
/// correspond one-to-one with the contract-issued entries, none of which has
/// a native kind.
pub proof fn lemma_native_asset_prepared(s: Seq<Asset>, i: int)
    requires
        0 <= i < s.len(),
        s[i].info matches AssetInfo::Native(_),
    ensures
        exists|k: int| 0 <= k < native_coins(s).len()
            && #[trigger] native_coins(s)[k].denom@ == native_denom(s[i])
            && native_coins(s)[k].amount == s[i].amount,
        forall|k: int| 0 <= k < cw20_assets(s).len()
            ==> !info_eq(#[trigger] cw20_assets(s)[k].info, s[i].info),
    decreases s.len(),
{
    lemma_cw20_assets_are_cw20(s);
    if i == s.len() - 1 {
        let k = native_coins(s).len() - 1;
        assert(native_coins(s)[k].denom@ == native_denom(s[i]) && native_coins(s)[k].amount == s[i].amount);
    } else {
        lemma_native_asset_prepared(s.drop_last(), i);
        assert(s.drop_last()[i] == s[i]);
        let k = choose|k: int| 0 <= k < native_coins(s.drop_last()).len()
            && #[trigger] native_coins(s.drop_last())[k].denom@ == native_denom(s[i])
            && native_coins(s.drop_last())[k].amount == s[i].amount;
        assert(native_coins(s)[k].denom@ == native_denom(s[i]) && native_coins(s)[k].amount == s[i].amount);
    }
}

/// Every contract-issued asset of the list stands among the entries the
/// preparer emits exactly one allowance message for, at some position.
pub proof fn lemma_cw20_allowance_emitted(s: Seq<Asset>, i: int)
    requires
        0 <= i < s.len(),
        s[i].info matches AssetInfo::Cw20(_),
    ensures
        exists|k: int| 0 <= k < cw20_assets(s).len() && #[trigger] cw20_assets(s)[k] == s[i],
    decreases s.len(),
{
    if i == s.len() - 1 {
        let k = cw20_assets(s).len() - 1;
        assert(cw20_assets(s)[k] == s[i]);
    } else {
        lemma_cw20_allowance_emitted(s.drop_last(), i);
        assert(s.drop_last()[i] == s[i]);
        let k = choose|k: int| 0 <= k < cw20_assets(s.drop_last()).len()
            && #[trigger] cw20_assets(s.drop_last())[k] == s[i];
        assert(cw20_assets(s)[k] == s[i]);
    }
}

} // verus!
