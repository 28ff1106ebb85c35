use localic_utils::error::Error;
use localic_utils::registry::{ChainInfo, TestContext};
use localic_utils::{AUCTIONS_MANAGER_CONTRACT_NAME, AUCTION_CONTRACT_NAME, NEUTRON_CHAIN_ID};

fn neutron() -> ChainInfo {
    ChainInfo {
        chain_id: NEUTRON_CHAIN_ID.to_owned(),
        denom: "untrn".to_owned(),
        bech32_prefix: "neutron".to_owned(),
    }
}

fn ctx_with_neutron() -> TestContext {
    let mut ctx = TestContext::new("contracts".to_owned());
    ctx.register_chain(neutron()).unwrap();
    ctx
}

#[test]
fn register_chain_twice_is_refused() {
    let mut ctx = ctx_with_neutron();
    match ctx.register_chain(neutron()) {
        Err(Error::DuplicateChain(id)) => assert_eq!(id, "neutron-1"),
        _ => panic!("expected DuplicateChain"),
    }
    assert_eq!(ctx.chains.len(), 1);
}

#[test]
fn get_chain_of_unknown_id_fails() {
    let ctx = ctx_with_neutron();
    assert_eq!(ctx.get_chain("neutron-1").unwrap().denom, "untrn");
    assert!(matches!(ctx.get_chain("osmosis-1"), Err(Error::UnknownChain(id)) if id == "osmosis-1"));
}

#[test]
fn upload_on_unknown_chain_fails() {
    let mut ctx = TestContext::new("contracts".to_owned());
    assert!(matches!(ctx.record_code_upload("neutron-1", "auction", 1), Err(Error::UnknownChain(_))));
    assert!(ctx.contract_codes.is_empty());
}

#[test]
fn upload_then_instantiate_resolves_latest_code_and_all_addresses() {
    let mut ctx = ctx_with_neutron();
    ctx.record_code_upload(NEUTRON_CHAIN_ID, "astroport_pair", 3).unwrap();
    ctx.record_instantiation(NEUTRON_CHAIN_ID, "astroport_pair", "neutron1pair".to_owned()).unwrap();
    let h = ctx.get_contract(NEUTRON_CHAIN_ID, "astroport_pair").unwrap();
    assert_eq!(h.code_id, 3);
    assert_eq!(h.address.as_deref(), Some("neutron1pair"));

    ctx.record_code_upload(NEUTRON_CHAIN_ID, "astroport_pair", 9).unwrap();
    let h = ctx.get_contract(NEUTRON_CHAIN_ID, "astroport_pair").unwrap();
    assert_eq!(h.code_id, 9);
    assert_eq!(ctx.code_id_of(NEUTRON_CHAIN_ID, "astroport_pair"), Some(9));
    assert_eq!(ctx.contract_addresses(NEUTRON_CHAIN_ID, "astroport_pair"), vec!["neutron1pair".to_owned()]);
}

#[test]
fn uploaded_contract_without_instances_has_no_address() {
    let mut ctx = ctx_with_neutron();
    ctx.record_code_upload(NEUTRON_CHAIN_ID, AUCTION_CONTRACT_NAME, 1).unwrap();
    let h = ctx.get_contract(NEUTRON_CHAIN_ID, AUCTION_CONTRACT_NAME).unwrap();
    assert_eq!(h.code_id, 1);
    assert!(h.address.is_none());
}

#[test]
fn instantiation_without_upload_fails_and_changes_nothing() {
    let mut ctx = ctx_with_neutron();
    ctx.record_code_upload(NEUTRON_CHAIN_ID, AUCTION_CONTRACT_NAME, 1).unwrap();
    match ctx.record_instantiation(NEUTRON_CHAIN_ID, "price_oracle", "neutron1oracle".to_owned()) {
        Err(Error::UnknownContract(name)) => assert_eq!(name, "price_oracle"),
        _ => panic!("expected UnknownContract"),
    }
    assert!(ctx.contract_addrs.is_empty());
    assert_eq!(ctx.contract_codes.len(), 1);
    assert!(matches!(ctx.get_contract(NEUTRON_CHAIN_ID, "price_oracle"), Err(Error::UnknownContract(_))));
}

#[test]
fn two_instances_are_kept_in_call_order_and_ambiguous() {
    let mut ctx = ctx_with_neutron();
    ctx.record_code_upload(NEUTRON_CHAIN_ID, AUCTION_CONTRACT_NAME, 1).unwrap();
    ctx.record_instantiation(NEUTRON_CHAIN_ID, AUCTION_CONTRACT_NAME, "neutron1first".to_owned()).unwrap();
    ctx.record_instantiation(NEUTRON_CHAIN_ID, AUCTION_CONTRACT_NAME, "neutron1second".to_owned()).unwrap();
    assert_eq!(
        ctx.contract_addresses(NEUTRON_CHAIN_ID, AUCTION_CONTRACT_NAME),
        vec!["neutron1first".to_owned(), "neutron1second".to_owned()]
    );
    match ctx.get_contract(NEUTRON_CHAIN_ID, AUCTION_CONTRACT_NAME) {
        Err(Error::AmbiguousContract(name)) => assert_eq!(name, "auction"),
        _ => panic!("expected AmbiguousContract"),
    }
}

#[test]
fn instances_on_other_chains_are_separate() {
    let mut ctx = ctx_with_neutron();
    ctx.register_chain(ChainInfo {
        chain_id: "osmosis-1".to_owned(),
        denom: "uosmo".to_owned(),
        bech32_prefix: "osmo".to_owned(),
    })
    .unwrap();
    ctx.record_code_upload(NEUTRON_CHAIN_ID, AUCTION_CONTRACT_NAME, 1).unwrap();
    assert!(matches!(
        ctx.record_instantiation("osmosis-1", AUCTION_CONTRACT_NAME, "osmo1x".to_owned()),
        Err(Error::UnknownContract(_))
    ));
    ctx.record_code_upload("osmosis-1", AUCTION_CONTRACT_NAME, 7).unwrap();
    assert_eq!(ctx.code_id_of(NEUTRON_CHAIN_ID, AUCTION_CONTRACT_NAME), Some(1));
    assert_eq!(ctx.code_id_of("osmosis-1", AUCTION_CONTRACT_NAME), Some(7));
}

#[test]
fn auctions_manager_slot_is_empty_at_start() {
    let ctx = ctx_with_neutron();
    match ctx.get_auctions_manager() {
        Err(Error::SingletonNotDeployed(name)) => assert_eq!(name, AUCTIONS_MANAGER_CONTRACT_NAME),
        _ => panic!("expected SingletonNotDeployed"),
    }
}

#[test]
fn tokenfactory_denom_is_derived_and_cached() {
    let mut ctx = ctx_with_neutron();
    let owner = "neutron1kuf2kxwuv2p8k3gnpja7mzf05zvep0cyuy7mxg";
    let first = ctx.get_tokenfactory_denom(owner, "bruhtoken");
    let second = ctx.get_tokenfactory_denom(owner, "bruhtoken");
    assert_eq!(first, "factory/neutron1kuf2kxwuv2p8k3gnpja7mzf05zvep0cyuy7mxg/bruhtoken");
    assert_eq!(first, second);
    assert_eq!(ctx.cached_tokenfactory_denom(owner, "bruhtoken"), None);
    let recorded = ctx.record_tokenfactory_token(owner, "bruhtoken");
    assert_eq!(recorded, first);
    assert_eq!(ctx.cached_tokenfactory_denom(owner, "bruhtoken"), Some(first));
    assert_eq!(ctx.cached_tokenfactory_denom(owner, "amoguscoin"), None);
}
