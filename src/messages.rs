use vstd::prelude::*;
use vstd::string::StringExecFns;

use crate::numeric::{decimal_digits, Decimal};

verus! {

/// Minimum amounts of one denom accepted by the auctions manager.
#[derive(Debug)]
pub struct MinAmount {
    pub send: String,
    pub start_auction: String,
}

/// Price curve of an auction, in percent of the oracle price.
#[derive(PartialEq, Eq, Structural, Clone, Copy, Debug)]
pub struct AuctionStrategy {
    pub start_price_perc: u64,
    pub end_price_perc: u64,
}

/// When an auction treats its chain as halted.
#[derive(Debug)]
pub struct ChainHaltConfig {
    pub cap: String,
    pub block_avg: String,
}

/// How an auction weighs the age of the oracle price.
#[derive(Debug)]
pub struct PriceFreshnessStrategy {
    pub limit: String,
    pub multipliers: Vec<(String, String)>,
}

/// Instantiate message of the auctions manager.
#[derive(Debug)]
pub struct AuctionsManagerInit {
    pub auction_code_id: u64,
    pub min_auction_amount: Vec<(String, MinAmount)>,
    pub server_addr: String,
}

/// The admin message of the auctions manager that creates an auction.
#[derive(Debug)]
pub struct NewAuction {
    pub pair: (String, String),
    pub auction_strategy: AuctionStrategy,
    pub chain_halt_config: ChainHaltConfig,
    pub price_freshness_strategy: PriceFreshnessStrategy,
    pub label: String,
}

/// An asset amount offered to a pool.
#[derive(Debug)]
pub struct PoolAsset {
    pub denom: String,
    pub amount: u128,
}

/// Liquidity provision to a pool.
#[derive(Debug)]
pub struct ProvideLiquidity {
    pub assets: Vec<PoolAsset>,
    pub slippage_tolerance: Decimal,
    pub receiver: Option<String>,
}

/// The instantiate messages this crate builds.
#[derive(Debug)]
pub enum InstantiateMsg {
    AuctionsManager(AuctionsManagerInit),
}

/// The execute messages this crate builds.
#[derive(Debug)]
pub enum ExecuteMsg {
    NewAuction(NewAuction),
    ProvideLiquidity(ProvideLiquidity),
}

/// Chain transactions that are not contract calls.
#[derive(Debug)]
pub enum ChainTxMsg {
    CreateDenom { subdenom: String },
    Mint { denom: String, amount: u128 },
}

/// The queries this crate builds.
#[derive(Debug)]
pub enum QueryMsg {
    /// Asks the auctions manager for the auction of a pair.
    GetPairAddr { pair: (String, String) },
    /// Asks a pool factory for the pool of two denoms.
    Pair { denom_a: String, denom_b: String },
}

/// Instantiate `code_id` on `chain_id` with `msg`, signed by `sender_key`.
#[derive(Debug)]
pub struct InstantiateRequest {
    pub chain_id: String,
    pub code_id: u64,
    pub sender_key: String,
    pub label: String,
    pub msg: InstantiateMsg,
}

/// Execute `msg` on `contract_addr`, signed by `sender_key`, with the
/// transaction flags `flags`.
#[derive(Debug)]
pub struct ExecuteRequest {
    pub chain_id: String,
    pub contract_addr: String,
    pub sender_key: String,
    pub msg: ExecuteMsg,
    pub flags: String,
}

/// A chain transaction signed by `sender_key`.
#[derive(Debug)]
pub struct ChainTxRequest {
    pub chain_id: String,
    pub sender_key: String,
    pub msg: ChainTxMsg,
}

/// A read-only query of `contract_addr`.
#[derive(Debug)]
pub struct QueryRequest {
    pub chain_id: String,
    pub contract_addr: String,
    pub msg: QueryMsg,
}

/// The transaction flags that attach `amount` of `denom` and set the gas
/// limit to `gas`.
pub open spec fn funds_flags(amount: nat, denom: Seq<char>, gas: nat) -> Seq<char> {
    "--amount "@ + decimal_digits(amount) + denom + " --gas "@ + decimal_digits(gas)
}

} // verus!

verus! {

/// The transaction flags that attach `amount` of `denom` and set the gas
/// limit to `gas`, as in `funds_flags`.
pub fn funds_flags_string(amount: u128, denom: &str, gas: u128) -> (r: String)
    ensures
        r@ == funds_flags(amount as nat, denom@, gas as nat),
{
    let mut s = "--amount ".to_owned();
    crate::numeric::push_decimal(&mut s, amount);
    s.append(denom);
    s.append(" --gas ");
    crate::numeric::push_decimal(&mut s, gas);
    assert(s@ =~= funds_flags(amount as nat, denom@, gas as nat));
    s
}

} // verus!

verus! {

/// The transaction flags that attach `amount_a` of `denom_a` and `amount_b`
/// of `denom_b` and set the gas limit to `gas`.
pub open spec fn two_funds_flags(amount_a: nat, denom_a: Seq<char>, amount_b: nat, denom_b: Seq<char>, gas: nat) -> Seq<char> {
    "--amount "@ + decimal_digits(amount_a) + denom_a + ","@ + decimal_digits(amount_b) + denom_b
        + " --gas "@ + decimal_digits(gas)
}

/// The transaction flags of `two_funds_flags`.
pub fn two_funds_flags_string(amount_a: u128, denom_a: &str, amount_b: u128, denom_b: &str, gas: u128) -> (r: String)
    ensures
        r@ == two_funds_flags(amount_a as nat, denom_a@, amount_b as nat, denom_b@, gas as nat),
{
    let mut s = "--amount ".to_owned();
    crate::numeric::push_decimal(&mut s, amount_a);
    s.append(denom_a);
    s.append(",");
    crate::numeric::push_decimal(&mut s, amount_b);
    s.append(denom_b);
    s.append(" --gas ");
    crate::numeric::push_decimal(&mut s, gas);
    assert(s@ =~= two_funds_flags(amount_a as nat, denom_a@, amount_b as nat, denom_b@, gas as nat));
    s
}

} // verus!
