use vstd::prelude::*;

use crate::error::{is_missing, Error};
use crate::messages::{
    two_funds_flags, two_funds_flags_string, AuctionStrategy, ChainHaltConfig, ChainTxMsg,
    ChainTxRequest, ExecuteMsg, ExecuteRequest, InstantiateRequest, MinAmount, PoolAsset,
    PriceFreshnessStrategy, ProvideLiquidity,
};
use crate::numeric::Decimal;
use crate::registry::TestContext;
use crate::NEUTRON_CHAIN_ID;

verus! {

/// Key that signs transactions unless a builder is told otherwise.
pub const DEFAULT_KEY: &'static str = "acc0";

/// Parameters of the auctions manager's instantiation.
pub struct CreateAuctionsManagerBuilder {
    pub key: String,
    pub min_auction_amount: Option<Vec<(String, MinAmount)>>,
    pub server_addr: Option<String>,
}

impl CreateAuctionsManagerBuilder {
    /// A builder with the default key and no other field set.
    pub fn new() -> (r: Self)
        ensures
            r.key@ == DEFAULT_KEY@,
            r.min_auction_amount is None,
            r.server_addr is None,
    {
        CreateAuctionsManagerBuilder { key: DEFAULT_KEY.to_owned(), min_auction_amount: None, server_addr: None }
    }

    /// Signs with `key`.
    pub fn with_key(self, key: &str) -> (r: Self)
        ensures
            r.key@ == key@,
            r == (Self { key: r.key, ..self }),
    {
        Self { key: key.to_owned(), ..self }
    }

    /// Sets the minimum amounts accepted per denom.
    pub fn with_min_auction_amount(self, min_auction_amount: Vec<(String, MinAmount)>) -> (r: Self)
        ensures
            r == (Self { min_auction_amount: Some(min_auction_amount), ..self }),
    {
        Self { min_auction_amount: Some(min_auction_amount), ..self }
    }

    /// Sets the address of the auction server.
    pub fn with_server_addr(self, server_addr: &str) -> (r: Self)
        ensures
            r.server_addr matches Some(a) && a@ == server_addr@,
            r == (Self { server_addr: r.server_addr, ..self }),
    {
        Self { server_addr: Some(server_addr.to_owned()), ..self }
    }

    /// Validates the fields and resolves the instantiation request; no
    /// request exists unless every mandatory field is set.
    pub fn prepare(self, ctx: &TestContext) -> (r: Result<InstantiateRequest, Error>)
        ensures
            self.min_auction_amount is None ==> is_missing(
                r,
                "create_auctions_manager"@,
                "min_auction_amount"@,
            ),
            self.min_auction_amount is Some && self.server_addr is None ==> is_missing(
                r,
                "create_auctions_manager"@,
                "server_addr"@,
            ),
            self.min_auction_amount matches Some(m) ==> (self.server_addr matches Some(s)
                ==> ctx.auctions_manager_request(self.key@, m, s@, r)),
    {
        let min_auction_amount = match self.min_auction_amount {
            Some(m) => m,
            None => {
                return Err(
                    Error::MissingParameter {
                        operation: "create_auctions_manager".to_owned(),
                        field: "min_auction_amount".to_owned(),
                    },
                );
            },
        };
        let server_addr = match self.server_addr {
            Some(s) => s,
            None => {
                return Err(
                    Error::MissingParameter {
                        operation: "create_auctions_manager".to_owned(),
                        field: "server_addr".to_owned(),
                    },
                );
            },
        };
        ctx.tx_create_auctions_manager(self.key.as_str(), min_auction_amount, server_addr.as_str())
    }
}

/// Parameters of an auction's creation.
pub struct CreateAuctionBuilder {
    pub key: String,
    pub offer_asset: Option<String>,
    pub ask_asset: Option<String>,
    pub auction_strategy: AuctionStrategy,
    pub chain_halt_config: ChainHaltConfig,
    pub price_freshness_strategy: PriceFreshnessStrategy,
    pub label: String,
    pub amount_offer_asset: Option<u128>,
}

impl CreateAuctionBuilder {
    /// A builder with the default key, label and auction settings, and no
    /// assets or amount set.
    pub fn new() -> (r: Self)
        ensures
            r.key@ == DEFAULT_KEY@,
            r.offer_asset is None,
            r.ask_asset is None,
            r.amount_offer_asset is None,
            r.label@ == "auction"@,
            r.auction_strategy == (AuctionStrategy { start_price_perc: 5000, end_price_perc: 5000 }),
            r.chain_halt_config.cap@ == "14400"@,
            r.chain_halt_config.block_avg@ == "3"@,
            r.price_freshness_strategy.limit@ == "3"@,
            r.price_freshness_strategy.multipliers@.len() == 2,
            r.price_freshness_strategy.multipliers@[0].0@ == "2"@,
            r.price_freshness_strategy.multipliers@[0].1@ == "2"@,
            r.price_freshness_strategy.multipliers@[1].0@ == "1"@,
            r.price_freshness_strategy.multipliers@[1].1@ == "1.5"@,
    {
        let mut multipliers: Vec<(String, String)> = Vec::new();
        multipliers.push(("2".to_owned(), "2".to_owned()));
        multipliers.push(("1".to_owned(), "1.5".to_owned()));
        CreateAuctionBuilder {
            key: DEFAULT_KEY.to_owned(),
            offer_asset: None,
            ask_asset: None,
            auction_strategy: AuctionStrategy { start_price_perc: 5000, end_price_perc: 5000 },
            chain_halt_config: ChainHaltConfig { cap: "14400".to_owned(), block_avg: "3".to_owned() },
            price_freshness_strategy: PriceFreshnessStrategy { limit: "3".to_owned(), multipliers },
            label: "auction".to_owned(),
            amount_offer_asset: None,
        }
    }

    /// Signs with `key`.
    pub fn with_key(self, key: &str) -> (r: Self)
        ensures
            r.key@ == key@,
            r == (Self { key: r.key, ..self }),
    {
        Self { key: key.to_owned(), ..self }
    }

    /// Sets the denom that the auction sells.
    pub fn with_offer_asset(self, denom: &str) -> (r: Self)
        ensures
            r.offer_asset matches Some(a) && a@ == denom@,
            r == (Self { offer_asset: r.offer_asset, ..self }),
    {
        Self { offer_asset: Some(denom.to_owned()), ..self }
    }

    /// Sets the denom that the auction buys.
    pub fn with_ask_asset(self, denom: &str) -> (r: Self)
        ensures
            r.ask_asset matches Some(a) && a@ == denom@,
            r == (Self { ask_asset: r.ask_asset, ..self }),
    {
        Self { ask_asset: Some(denom.to_owned()), ..self }
    }

    /// Sets the amount of the offered denom sent with the creation.
    pub fn with_amount_offer_asset(self, amount: u128) -> (r: Self)
        ensures
            r == (Self { amount_offer_asset: Some(amount), ..self }),
    {
        Self { amount_offer_asset: Some(amount), ..self }
    }

    /// Sets the auction's price curve.
    pub fn with_auction_strategy(self, auction_strategy: AuctionStrategy) -> (r: Self)
        ensures
            r == (Self { auction_strategy, ..self }),
    {
        Self { auction_strategy, ..self }
    }

    /// Sets the auction's chain halt settings.
    pub fn with_chain_halt_config(self, chain_halt_config: ChainHaltConfig) -> (r: Self)
        ensures
            r == (Self { chain_halt_config, ..self }),
    {
        Self { chain_halt_config, ..self }
    }

    /// Sets the auction's price freshness settings.
    pub fn with_price_freshness_strategy(self, price_freshness_strategy: PriceFreshnessStrategy) -> (r: Self)
        ensures
            r == (Self { price_freshness_strategy, ..self }),
    {
        Self { price_freshness_strategy, ..self }
    }

    /// Sets the auction's label.
    pub fn with_label(self, label: &str) -> (r: Self)
        ensures
            r.label@ == label@,
            r == (Self { label: r.label, ..self }),
    {
        Self { label: label.to_owned(), ..self }
    }

    /// Validates the fields and resolves the execute request; no request
    /// exists unless every mandatory field is set.
    pub fn prepare(self, ctx: &TestContext) -> (r: Result<ExecuteRequest, Error>)
        ensures
            self.offer_asset is None ==> is_missing(r, "create_auction"@, "offer_asset"@),
            self.offer_asset is Some && self.ask_asset is None ==> is_missing(
                r,
                "create_auction"@,
                "ask_asset"@,
            ),
            self.offer_asset is Some && self.ask_asset is Some && self.amount_offer_asset is None
                ==> is_missing(r, "create_auction"@, "amount_offer_asset"@),
            self.offer_asset matches Some(offer) ==> (self.ask_asset matches Some(ask) ==> (
            self.amount_offer_asset matches Some(amount) ==> ctx.auction_request(
                self.key@,
                (offer, ask),
                self.auction_strategy,
                self.chain_halt_config,
                self.price_freshness_strategy,
                self.label@,
                amount,
                r,
            ))),
    {
        let offer = match self.offer_asset {
            Some(a) => a,
            None => {
                return Err(
                    Error::MissingParameter { operation: "create_auction".to_owned(), field: "offer_asset".to_owned() },
                );
            },
        };
        let ask = match self.ask_asset {
            Some(a) => a,
            None => {
                return Err(
                    Error::MissingParameter { operation: "create_auction".to_owned(), field: "ask_asset".to_owned() },
                );
            },
        };
        let amount = match self.amount_offer_asset {
            Some(a) => a,
            None => {
                return Err(
                    Error::MissingParameter {
                        operation: "create_auction".to_owned(),
                        field: "amount_offer_asset".to_owned(),
                    },
                );
            },
        };
        ctx.tx_create_auction(
            self.key.as_str(),
            (offer, ask),
            self.auction_strategy,
            self.chain_halt_config,
            self.price_freshness_strategy,
            self.label.as_str(),
            amount,
        )
    }
}

} // verus!

verus! {

/// Parameters of a tokenfactory token's creation.
pub struct CreateTokenfactoryTokenBuilder {
    pub key: String,
    pub chain_id: String,
    pub subdenom: Option<String>,
}

impl CreateTokenfactoryTokenBuilder {
    /// A builder for Neutron with the default key and no subdenom.
    pub fn new() -> (r: Self)
        ensures
            r.key@ == DEFAULT_KEY@,
            r.chain_id@ == NEUTRON_CHAIN_ID@,
            r.subdenom is None,
    {
        CreateTokenfactoryTokenBuilder { key: DEFAULT_KEY.to_owned(), chain_id: NEUTRON_CHAIN_ID.to_owned(), subdenom: None }
    }

    /// Signs with `key`.
    pub fn with_key(self, key: &str) -> (r: Self)
        ensures
            r.key@ == key@,
            r == (Self { key: r.key, ..self }),
    {
        Self { key: key.to_owned(), ..self }
    }

    /// Creates the token on the chain `chain_id`.
    pub fn with_chain_id(self, chain_id: &str) -> (r: Self)
        ensures
            r.chain_id@ == chain_id@,
            r == (Self { chain_id: r.chain_id, ..self }),
    {
        Self { chain_id: chain_id.to_owned(), ..self }
    }

    /// Sets the subdenom of the new token.
    pub fn with_subdenom(self, subdenom: &str) -> (r: Self)
        ensures
            r.subdenom matches Some(s) && s@ == subdenom@,
            r == (Self { subdenom: r.subdenom, ..self }),
    {
        Self { subdenom: Some(subdenom.to_owned()), ..self }
    }

    /// Validates the fields and builds the transaction that creates the token.
    pub fn prepare(self, ctx: &TestContext) -> (r: Result<ChainTxRequest, Error>)
        ensures
            self.subdenom is None ==> is_missing(r, "create_tokenfactory_token"@, "subdenom"@),
            self.subdenom matches Some(sub) ==> (!ctx.has_chain(self.chain_id@) ==> (r matches Err(
                Error::UnknownChain(c),
            ) && c@ == self.chain_id@)),
            self.subdenom matches Some(sub) ==> (ctx.has_chain(self.chain_id@) ==> (r matches Ok(tx)
                && tx.chain_id == self.chain_id && tx.sender_key == self.key && tx.msg == (ChainTxMsg::CreateDenom {
                subdenom: sub,
            }))),
    {
        let subdenom = match self.subdenom {
            Some(s) => s,
            None => {
                return Err(
                    Error::MissingParameter {
                        operation: "create_tokenfactory_token".to_owned(),
                        field: "subdenom".to_owned(),
                    },
                );
            },
        };
        if ctx.get_chain(self.chain_id.as_str()).is_err() {
            return Err(Error::UnknownChain(self.chain_id));
        }
        Ok(ChainTxRequest { chain_id: self.chain_id, sender_key: self.key, msg: ChainTxMsg::CreateDenom { subdenom } })
    }
}

/// Parameters of a tokenfactory mint.
pub struct MintTokenfactoryTokenBuilder {
    pub key: String,
    pub chain_id: String,
    pub denom: Option<String>,
    pub amount: Option<u128>,
}

impl MintTokenfactoryTokenBuilder {
    /// A builder for Neutron with the default key and no denom or amount.
    pub fn new() -> (r: Self)
        ensures
            r.key@ == DEFAULT_KEY@,
            r.chain_id@ == NEUTRON_CHAIN_ID@,
            r.denom is None,
            r.amount is None,
    {
        MintTokenfactoryTokenBuilder {
            key: DEFAULT_KEY.to_owned(),
            chain_id: NEUTRON_CHAIN_ID.to_owned(),
            denom: None,
            amount: None,
        }
    }

    /// Signs with `key`.
    pub fn with_key(self, key: &str) -> (r: Self)
        ensures
            r.key@ == key@,
            r == (Self { key: r.key, ..self }),
    {
        Self { key: key.to_owned(), ..self }
    }

    /// Mints on the chain `chain_id`.
    pub fn with_chain_id(self, chain_id: &str) -> (r: Self)
        ensures
            r.chain_id@ == chain_id@,
            r == (Self { chain_id: r.chain_id, ..self }),
    {
        Self { chain_id: chain_id.to_owned(), ..self }
    }

    /// Sets the full denom to mint.
    pub fn with_denom(self, denom: &str) -> (r: Self)
        ensures
            r.denom matches Some(d) && d@ == denom@,
            r == (Self { denom: r.denom, ..self }),
    {
        Self { denom: Some(denom.to_owned()), ..self }
    }

    /// Sets the amount to mint.
    pub fn with_amount(self, amount: u128) -> (r: Self)
        ensures
            r == (Self { amount: Some(amount), ..self }),
    {
        Self { amount: Some(amount), ..self }
    }

    /// Validates the fields and builds the mint transaction.
    pub fn prepare(self, ctx: &TestContext) -> (r: Result<ChainTxRequest, Error>)
        ensures
            self.denom is None ==> is_missing(r, "mint_tokenfactory_token"@, "denom"@),
            self.denom is Some && self.amount is None ==> is_missing(
                r,
                "mint_tokenfactory_token"@,
                "amount"@,
            ),
            self.denom is Some && self.amount is Some && !ctx.has_chain(self.chain_id@) ==> (r matches Err(
                Error::UnknownChain(c),
            ) && c@ == self.chain_id@),
            self.denom matches Some(d) ==> (self.amount matches Some(a) ==> (ctx.has_chain(
                self.chain_id@,
            ) ==> (r matches Ok(tx) && tx.chain_id == self.chain_id && tx.sender_key == self.key
                && tx.msg == (ChainTxMsg::Mint { denom: d, amount: a })))),
    {
        let denom = match self.denom {
            Some(d) => d,
            None => {
                return Err(
                    Error::MissingParameter { operation: "mint_tokenfactory_token".to_owned(), field: "denom".to_owned() },
                );
            },
        };
        let amount = match self.amount {
            Some(a) => a,
            None => {
                return Err(
                    Error::MissingParameter { operation: "mint_tokenfactory_token".to_owned(), field: "amount".to_owned() },
                );
            },
        };
        if ctx.get_chain(self.chain_id.as_str()).is_err() {
            return Err(Error::UnknownChain(self.chain_id));
        }
        Ok(ChainTxRequest { chain_id: self.chain_id, sender_key: self.key, msg: ChainTxMsg::Mint { denom, amount } })
    }
}

/// Gas limit of a liquidity provision.
pub const FUND_POOL_GAS: u128 = 1000000;

/// Parameters of a liquidity provision to a pool.
pub struct FundPoolBuilder {
    pub key: String,
    pub denom_a: Option<String>,
    pub denom_b: Option<String>,
    pub amount_denom_a: Option<u128>,
    pub amount_denom_b: Option<u128>,
    pub slippage_tolerance: Option<Decimal>,
    pub liq_token_receiver: Option<String>,
}

impl FundPoolBuilder {
    /// A builder with the default key and no other field set.
    pub fn new() -> (r: Self)
        ensures
            r.key@ == DEFAULT_KEY@,
            r.denom_a is None,
            r.denom_b is None,
            r.amount_denom_a is None,
            r.amount_denom_b is None,
            r.slippage_tolerance is None,
            r.liq_token_receiver is None,
    {
        FundPoolBuilder {
            key: DEFAULT_KEY.to_owned(),
            denom_a: None,
            denom_b: None,
            amount_denom_a: None,
            amount_denom_b: None,
            slippage_tolerance: None,
            liq_token_receiver: None,
        }
    }

    /// Signs with `key`.
    pub fn with_key(self, key: &str) -> (r: Self)
        ensures
            r.key@ == key@,
            r == (Self { key: r.key, ..self }),
    {
        Self { key: key.to_owned(), ..self }
    }

    /// Sets the pool's first denom.
    pub fn with_denom_a(self, denom: &str) -> (r: Self)
        ensures
            r.denom_a matches Some(d) && d@ == denom@,
            r == (Self { denom_a: r.denom_a, ..self }),
    {
        Self { denom_a: Some(denom.to_owned()), ..self }
    }

    /// Sets the pool's second denom.
    pub fn with_denom_b(self, denom: &str) -> (r: Self)
        ensures
            r.denom_b matches Some(d) && d@ == denom@,
            r == (Self { denom_b: r.denom_b, ..self }),
    {
        Self { denom_b: Some(denom.to_owned()), ..self }
    }

    /// Sets the amount of the first denom provided.
    pub fn with_amount_denom_a(self, amount: u128) -> (r: Self)
        ensures
            r == (Self { amount_denom_a: Some(amount), ..self }),
    {
        Self { amount_denom_a: Some(amount), ..self }
    }

    /// Sets the amount of the second denom provided.
    pub fn with_amount_denom_b(self, amount: u128) -> (r: Self)
        ensures
            r == (Self { amount_denom_b: Some(amount), ..self }),
    {
        Self { amount_denom_b: Some(amount), ..self }
    }

    /// Sets the slippage tolerance.
    pub fn with_slippage_tolerance(self, slippage_tolerance: Decimal) -> (r: Self)
        ensures
            r == (Self { slippage_tolerance: Some(slippage_tolerance), ..self }),
    {
        Self { slippage_tolerance: Some(slippage_tolerance), ..self }
    }

    /// Sends the liquidity tokens to `receiver` rather than to the sender.
    pub fn with_liq_token_receiver(self, receiver: &str) -> (r: Self)
        ensures
            r.liq_token_receiver matches Some(x) && x@ == receiver@,
            r == (Self { liq_token_receiver: r.liq_token_receiver, ..self }),
    {
        Self { liq_token_receiver: Some(receiver.to_owned()), ..self }
    }

    /// Validates the fields and builds the provision to the pool at
    /// `pool_addr` on Neutron.
    pub fn prepare(self, pool_addr: &str) -> (r: Result<ExecuteRequest, Error>)
        ensures
            self.denom_a is None ==> is_missing(r, "fund_pool"@, "denom_a"@),
            self.denom_a is Some && self.denom_b is None ==> is_missing(r, "fund_pool"@, "denom_b"@),
            self.denom_a is Some && self.denom_b is Some && self.amount_denom_a is None ==> is_missing(
                r,
                "fund_pool"@,
                "amount_denom_a"@,
            ),
            self.denom_a is Some && self.denom_b is Some && self.amount_denom_a is Some
                && self.amount_denom_b is None ==> is_missing(r, "fund_pool"@, "amount_denom_b"@),
            self.denom_a is Some && self.denom_b is Some && self.amount_denom_a is Some
                && self.amount_denom_b is Some && self.slippage_tolerance is None ==> is_missing(
                r,
                "fund_pool"@,
                "slippage_tolerance"@,
            ),
            self.denom_a matches Some(da) ==> (self.denom_b matches Some(db) ==> (
            self.amount_denom_a matches Some(aa) ==> (self.amount_denom_b matches Some(ab) ==> (
            self.slippage_tolerance matches Some(slip) ==> (r matches Ok(req) && req.chain_id@
                == NEUTRON_CHAIN_ID@ && req.contract_addr@ == pool_addr@ && req.sender_key
                == self.key && req.flags@ == two_funds_flags(
                aa as nat,
                da@,
                ab as nat,
                db@,
                FUND_POOL_GAS as nat,
            ) && (req.msg matches ExecuteMsg::ProvideLiquidity(m) && m.assets@.len() == 2
                && m.assets@[0].denom == da && m.assets@[0].amount == aa && m.assets@[1].denom == db
                && m.assets@[1].amount == ab && m.slippage_tolerance == slip && m.receiver
                == self.liq_token_receiver)))))),
    {
        let denom_a = match self.denom_a {
            Some(d) => d,
            None => {
                return Err(Error::MissingParameter { operation: "fund_pool".to_owned(), field: "denom_a".to_owned() });
            },
        };
        let denom_b = match self.denom_b {
            Some(d) => d,
            None => {
                return Err(Error::MissingParameter { operation: "fund_pool".to_owned(), field: "denom_b".to_owned() });
            },
        };
        let amount_a = match self.amount_denom_a {
            Some(a) => a,
            None => {
                return Err(
                    Error::MissingParameter { operation: "fund_pool".to_owned(), field: "amount_denom_a".to_owned() },
                );
            },
        };
        let amount_b = match self.amount_denom_b {
            Some(a) => a,
            None => {
                return Err(
                    Error::MissingParameter { operation: "fund_pool".to_owned(), field: "amount_denom_b".to_owned() },
                );
            },
        };
        let slippage_tolerance = match self.slippage_tolerance {
            Some(s) => s,
            None => {
                return Err(
                    Error::MissingParameter { operation: "fund_pool".to_owned(), field: "slippage_tolerance".to_owned() },
                );
            },
        };
        let flags = two_funds_flags_string(amount_a, denom_a.as_str(), amount_b, denom_b.as_str(), FUND_POOL_GAS);
        let mut assets: Vec<PoolAsset> = Vec::new();
        assets.push(PoolAsset { denom: denom_a, amount: amount_a });
        assets.push(PoolAsset { denom: denom_b, amount: amount_b });
        Ok(
            ExecuteRequest {
                chain_id: NEUTRON_CHAIN_ID.to_owned(),
                contract_addr: pool_addr.to_owned(),
                sender_key: self.key,
                msg: ExecuteMsg::ProvideLiquidity(
                    ProvideLiquidity { assets, slippage_tolerance, receiver: self.liq_token_receiver },
                ),
                flags,
            },
        )
    }
}

} // verus!
