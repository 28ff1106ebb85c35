use localic_utils::builders::{
    CreateAuctionBuilder, CreateAuctionsManagerBuilder, CreateTokenfactoryTokenBuilder, FundPoolBuilder,
    MintTokenfactoryTokenBuilder,
};
use localic_utils::error::Error;
use localic_utils::messages::{ChainTxMsg, ExecuteMsg, InstantiateMsg, MinAmount, QueryMsg};
use localic_utils::numeric::Decimal;
use localic_utils::registry::{ChainInfo, Singleton, TestContext};
use localic_utils::valence::resolve_contract;
use localic_utils::{AUCTIONS_MANAGER_CONTRACT_NAME, AUCTION_CONTRACT_NAME, NEUTRON_CHAIN_ID};

const OWNER: &str = "neutron1kuf2kxwuv2p8k3gnpja7mzf05zvep0cyuy7mxg";

fn ctx_with_uploads() -> TestContext {
    let mut ctx = TestContext::new("contracts".to_owned());
    ctx.register_chain(ChainInfo {
        chain_id: NEUTRON_CHAIN_ID.to_owned(),
        denom: "untrn".to_owned(),
        bech32_prefix: "neutron".to_owned(),
    })
    .unwrap();
    ctx.record_code_upload(NEUTRON_CHAIN_ID, AUCTION_CONTRACT_NAME, 11).unwrap();
    ctx.record_code_upload(NEUTRON_CHAIN_ID, AUCTIONS_MANAGER_CONTRACT_NAME, 12).unwrap();
    ctx
}

fn min_amounts() -> Vec<(String, MinAmount)> {
    vec![("untrn".to_owned(), MinAmount { send: "0".to_owned(), start_auction: "0".to_owned() })]
}

fn ctx_with_manager() -> TestContext {
    let mut ctx = ctx_with_uploads();
    let req = CreateAuctionsManagerBuilder::new()
        .with_min_auction_amount(min_amounts())
        .with_server_addr(OWNER)
        .prepare(&ctx)
        .unwrap();
    assert_eq!(req.code_id, 12);
    ctx.record_singleton(Singleton::AuctionsManager, "neutron1manager".to_owned()).unwrap();
    ctx
}

#[test]
fn create_auctions_manager_fills_the_singleton_slot() {
    let mut ctx = ctx_with_uploads();
    let req = CreateAuctionsManagerBuilder::new()
        .with_min_auction_amount(min_amounts())
        .with_server_addr(OWNER)
        .prepare(&ctx)
        .unwrap();
    assert_eq!(req.chain_id, "neutron-1");
    assert_eq!(req.code_id, 12);
    assert_eq!(req.label, "auctions_manager");
    assert_eq!(req.sender_key, "acc0");
    match &req.msg {
        InstantiateMsg::AuctionsManager(m) => {
            assert_eq!(m.auction_code_id, 11);
            assert_eq!(m.server_addr, OWNER);
            assert_eq!(m.min_auction_amount.len(), 1);
            assert_eq!(m.min_auction_amount[0].0, "untrn");
            assert_eq!(m.min_auction_amount[0].1.send, "0");
            assert_eq!(m.min_auction_amount[0].1.start_auction, "0");
        }
    }
    ctx.record_singleton(Singleton::AuctionsManager, "neutron1manager".to_owned()).unwrap();
    let manager = ctx.get_auctions_manager().unwrap();
    assert!(!manager.address.is_empty());
    assert_eq!(manager.address, "neutron1manager");
    assert_eq!(manager.code_id, 12);
    assert_eq!(manager.artifact_path, "contracts/auctions_manager.wasm");
    assert_eq!(
        ctx.contract_addresses(NEUTRON_CHAIN_ID, AUCTIONS_MANAGER_CONTRACT_NAME),
        vec!["neutron1manager".to_owned()]
    );
}

#[test]
fn create_auctions_manager_needs_the_auction_code() {
    let mut ctx = TestContext::new("contracts".to_owned());
    ctx.register_chain(ChainInfo {
        chain_id: NEUTRON_CHAIN_ID.to_owned(),
        denom: "untrn".to_owned(),
        bech32_prefix: "neutron".to_owned(),
    })
    .unwrap();
    ctx.record_code_upload(NEUTRON_CHAIN_ID, AUCTIONS_MANAGER_CONTRACT_NAME, 12).unwrap();
    let r = ctx.tx_create_auctions_manager("acc0", min_amounts(), OWNER);
    assert!(matches!(r, Err(Error::UnknownContract(n)) if n == "auction"));
}

#[test]
fn create_auctions_manager_without_neutron_fails() {
    let ctx = TestContext::new("contracts".to_owned());
    let r = ctx.tx_create_auctions_manager("acc0", min_amounts(), OWNER);
    assert!(matches!(r, Err(Error::UnknownChain(c)) if c == "neutron-1"));
}

#[test]
fn create_auction_before_manager_fails() {
    let ctx = ctx_with_uploads();
    let r = CreateAuctionBuilder::new()
        .with_offer_asset("untrn")
        .with_ask_asset("factory/x/bruhtoken")
        .with_amount_offer_asset(10000)
        .prepare(&ctx);
    assert!(matches!(r, Err(Error::SingletonNotDeployed(n)) if n == "auctions_manager"));
}

#[test]
fn missing_field_is_named_before_any_request_exists() {
    let ctx = ctx_with_manager();
    let r = CreateAuctionBuilder::new().with_ask_asset("uatom").with_amount_offer_asset(1).prepare(&ctx);
    assert!(matches!(r, Err(Error::MissingParameter { operation, field })
        if operation == "create_auction" && field == "offer_asset"));
    let r = CreateAuctionBuilder::new().with_offer_asset("untrn").prepare(&ctx);
    assert!(matches!(r, Err(Error::MissingParameter { field, .. }) if field == "ask_asset"));
    let r = CreateAuctionBuilder::new().with_offer_asset("untrn").with_ask_asset("uatom").prepare(&ctx);
    assert!(matches!(r, Err(Error::MissingParameter { field, .. }) if field == "amount_offer_asset"));
    let r = CreateAuctionsManagerBuilder::new().with_server_addr(OWNER).prepare(&ctx);
    assert!(matches!(r, Err(Error::MissingParameter { operation, field })
        if operation == "create_auctions_manager" && field == "min_auction_amount"));
    let r = CreateAuctionsManagerBuilder::new().with_min_auction_amount(min_amounts()).prepare(&ctx);
    assert!(matches!(r, Err(Error::MissingParameter { field, .. }) if field == "server_addr"));
    let r = MintTokenfactoryTokenBuilder::new().with_denom("factory/x/y").prepare(&ctx);
    assert!(matches!(r, Err(Error::MissingParameter { field, .. }) if field == "amount"));
    let r = CreateTokenfactoryTokenBuilder::new().prepare(&ctx);
    assert!(matches!(r, Err(Error::MissingParameter { field, .. }) if field == "subdenom"));
    let r = FundPoolBuilder::new().with_denom_a("untrn").with_denom_b("uatom").prepare("neutron1pool");
    assert!(matches!(r, Err(Error::MissingParameter { field, .. }) if field == "amount_denom_a"));
}

#[test]
fn mint_then_create_auction_and_resolve_it() {
    let mut ctx = ctx_with_manager();
    let create = CreateTokenfactoryTokenBuilder::new().with_subdenom("bruhtoken").prepare(&ctx).unwrap();
    assert!(matches!(&create.msg, ChainTxMsg::CreateDenom { subdenom } if subdenom == "bruhtoken"));
    let denom = ctx.record_tokenfactory_token(OWNER, "bruhtoken");

    let mint = MintTokenfactoryTokenBuilder::new()
        .with_denom(&denom)
        .with_amount(10000000000)
        .prepare(&ctx)
        .unwrap();
    assert_eq!(mint.chain_id, "neutron-1");
    match &mint.msg {
        ChainTxMsg::Mint { denom: d, amount } => {
            assert_eq!(d, &denom);
            assert_eq!(*amount, 10000000000);
        }
        _ => panic!("expected a mint"),
    }

    let req = CreateAuctionBuilder::new()
        .with_offer_asset("untrn")
        .with_ask_asset(&denom)
        .with_amount_offer_asset(10000)
        .prepare(&ctx)
        .unwrap();
    assert_eq!(req.contract_addr, "neutron1manager");
    assert_eq!(req.flags, "--amount 10000untrn --gas 2000000");
    match &req.msg {
        ExecuteMsg::NewAuction(m) => {
            assert_eq!(m.pair, ("untrn".to_owned(), denom.clone()));
            assert_eq!(m.label, "auction");
            assert_eq!(m.auction_strategy.start_price_perc, 5000);
        }
        _ => panic!("expected a new auction"),
    }

    let query = ctx.get_auction_query(("untrn".to_owned(), denom.clone())).unwrap();
    assert_eq!(query.contract_addr, "neutron1manager");
    assert!(matches!(&query.msg, QueryMsg::GetPairAddr { pair } if pair.1 == denom));
    let handle = resolve_contract(Some("neutron1auction".to_owned()), 11, "auction").unwrap();
    assert_eq!(handle.address.as_deref(), Some("neutron1auction"));
    assert!(matches!(resolve_contract(None, 11, "auction"), Err(Error::NotFound(n)) if n == "auction"));
}

#[test]
fn fund_pool_carries_exactly_half_as_slippage() {
    let req = FundPoolBuilder::new()
        .with_denom_a("untrn")
        .with_denom_b("factory/x/amoguscoin")
        .with_amount_denom_a(10000)
        .with_amount_denom_b(10000)
        .with_slippage_tolerance(Decimal::percent(50))
        .with_liq_token_receiver(OWNER)
        .prepare("neutron1pool")
        .unwrap();
    assert_eq!(req.flags, "--amount 10000untrn,10000factory/x/amoguscoin --gas 1000000");
    match &req.msg {
        ExecuteMsg::ProvideLiquidity(m) => {
            assert_eq!(m.slippage_tolerance, Decimal::checked_from_ratio(1, 2).unwrap());
            assert_eq!(m.slippage_tolerance.atomics, 500_000_000_000_000_000);
            assert_eq!(m.slippage_tolerance.to_decimal_string(), "0.5");
            assert_eq!(m.assets.len(), 2);
            assert_eq!(m.assets[1].denom, "factory/x/amoguscoin");
            assert_eq!(m.receiver.as_deref(), Some(OWNER));
        }
        _ => panic!("expected a liquidity provision"),
    }
}

#[test]
fn pool_query_needs_the_factory() {
    let mut ctx = ctx_with_uploads();
    let r = ctx.get_astroport_pool_query("untrn", "uatom");
    assert!(matches!(r, Err(Error::SingletonNotDeployed(n)) if n == "astroport_factory"));
    let r = ctx.record_singleton(Singleton::Factory, "neutron1factory".to_owned());
    assert!(matches!(r, Err(Error::UnknownContract(n)) if n == "astroport_factory"));
    assert!(ctx.factory.is_none());
    ctx.record_code_upload(NEUTRON_CHAIN_ID, "astroport_factory", 21).unwrap();
    ctx.record_singleton(Singleton::Factory, "neutron1factory".to_owned()).unwrap();
    let factory = ctx.get_singleton(Singleton::Factory).unwrap();
    assert_eq!(factory.code_id, 21);
    assert_eq!(factory.artifact_path, "contracts/astroport_factory.wasm");
    let q = ctx.get_astroport_pool_query("untrn", "uatom").unwrap();
    assert_eq!(q.contract_addr, "neutron1factory");
    assert!(matches!(&q.msg, QueryMsg::Pair { denom_a, denom_b } if denom_a == "untrn" && denom_b == "uatom"));
    assert!(matches!(ctx.get_singleton(Singleton::PriceOracle), Err(Error::SingletonNotDeployed(n)) if n == "price_oracle"));
}
