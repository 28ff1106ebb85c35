use vstd::prelude::*;
use vstd::string::StringExecFns;

use crate::error::Error;
use crate::messages::{
    funds_flags, funds_flags_string, AuctionStrategy, AuctionsManagerInit, ChainHaltConfig,
    ExecuteMsg, ExecuteRequest, InstantiateMsg, InstantiateRequest, MinAmount, NewAuction,
    PriceFreshnessStrategy, QueryMsg, QueryRequest,
};
use crate::registry::{ContractHandle, DeployedContractInfo, Singleton, TestContext};
use crate::{AUCTIONS_MANAGER_CONTRACT_NAME, AUCTION_CONTRACT_NAME, FACTORY_CONTRACT_NAME, NEUTRON_CHAIN_ID};

verus! {

/// Gas limit of the transaction that creates an auction.
pub const CREATE_AUCTION_GAS: u128 = 2000000;

/// Where the artifact of `name` lies in `dir`.
pub open spec fn artifact_path(dir: Seq<char>, name: Seq<char>) -> Seq<char> {
    dir + "/"@ + name + ".wasm"@
}

impl TestContext {
    /// The outcome of requesting the auctions manager's instantiation.
    pub open spec fn auctions_manager_request(
        &self,
        sender_key: Seq<char>,
        min_auction_amount: Vec<(String, MinAmount)>,
        server_addr: Seq<char>,
        r: Result<InstantiateRequest, Error>,
    ) -> bool {
        let manager_code = self.code_id(NEUTRON_CHAIN_ID@, AUCTIONS_MANAGER_CONTRACT_NAME@);
        let auction_code = self.code_id(NEUTRON_CHAIN_ID@, AUCTION_CONTRACT_NAME@);
        if !self.has_chain(NEUTRON_CHAIN_ID@) {
            r matches Err(Error::UnknownChain(c)) && c@ == NEUTRON_CHAIN_ID@
        } else if manager_code is None {
            r matches Err(Error::UnknownContract(n)) && n@ == AUCTIONS_MANAGER_CONTRACT_NAME@
        } else if auction_code is None {
            r matches Err(Error::UnknownContract(n)) && n@ == AUCTION_CONTRACT_NAME@
        } else {
            r matches Ok(req) && req.chain_id@ == NEUTRON_CHAIN_ID@ && Some(req.code_id)
                == manager_code && req.sender_key@ == sender_key && req.label@
                == AUCTIONS_MANAGER_CONTRACT_NAME@ && (req.msg matches InstantiateMsg::AuctionsManager(
                m,
            ) && Some(m.auction_code_id) == auction_code && m.min_auction_amount
                == min_auction_amount && m.server_addr@ == server_addr)
        }
    }

    /// The outcome of requesting an auction's creation.
    pub open spec fn auction_request(
        &self,
        sender_key: Seq<char>,
        pair: (String, String),
        auction_strategy: AuctionStrategy,
        chain_halt_config: ChainHaltConfig,
        price_freshness_strategy: PriceFreshnessStrategy,
        label: Seq<char>,
        amount_denom_a: u128,
        r: Result<ExecuteRequest, Error>,
    ) -> bool {
        match self.auctions_manager {
            None => r matches Err(Error::SingletonNotDeployed(n)) && n@
                == AUCTIONS_MANAGER_CONTRACT_NAME@,
            Some(manager) => r matches Ok(req) && req.chain_id@ == NEUTRON_CHAIN_ID@
                && req.contract_addr@ == manager.address@ && req.sender_key@ == sender_key
                && req.flags@ == funds_flags(amount_denom_a as nat, pair.0@, CREATE_AUCTION_GAS as nat)
                && (req.msg matches ExecuteMsg::NewAuction(m) && m.pair == pair && m.auction_strategy
                == auction_strategy && m.chain_halt_config == chain_halt_config
                && m.price_freshness_strategy == price_freshness_strategy && m.label@ == label),
        }
    }

    /// The request that instantiates the auctions manager on Neutron. It needs
    /// the code of the auctions manager and of the auction contract.
    pub fn tx_create_auctions_manager(
        &self,
        sender_key: &str,
        min_auction_amount: Vec<(String, MinAmount)>,
        server_addr: &str,
    ) -> (r: Result<InstantiateRequest, Error>)
        ensures
            self.auctions_manager_request(sender_key@, min_auction_amount, server_addr@, r),
    {
        if self.get_chain(NEUTRON_CHAIN_ID).is_err() {
            return Err(Error::UnknownChain(NEUTRON_CHAIN_ID.to_owned()));
        }
        let manager_code_id = match self.code_id_of(NEUTRON_CHAIN_ID, AUCTIONS_MANAGER_CONTRACT_NAME) {
            Some(id) => id,
            None => {
                return Err(Error::UnknownContract(AUCTIONS_MANAGER_CONTRACT_NAME.to_owned()));
            },
        };
        let auction_code_id = match self.code_id_of(NEUTRON_CHAIN_ID, AUCTION_CONTRACT_NAME) {
            Some(id) => id,
            None => {
                return Err(Error::UnknownContract(AUCTION_CONTRACT_NAME.to_owned()));
            },
        };
        Ok(
            InstantiateRequest {
                chain_id: NEUTRON_CHAIN_ID.to_owned(),
                code_id: manager_code_id,
                sender_key: sender_key.to_owned(),
                label: AUCTIONS_MANAGER_CONTRACT_NAME.to_owned(),
                msg: InstantiateMsg::AuctionsManager(
                    AuctionsManagerInit {
                        auction_code_id,
                        min_auction_amount,
                        server_addr: server_addr.to_owned(),
                    },
                ),
            },
        )
    }

    /// Records the deployment of `which` instantiated at `address` on
    /// Neutron: fills its singleton slot and appends the address to its
    /// instances.
    pub fn record_singleton(&mut self, which: Singleton, address: String) -> (r: Result<(), Error>)
        requires
            old(self).wf(),
        ensures
            final(self).wf(),
            !old(self).has_chain(NEUTRON_CHAIN_ID@) ==> (r matches Err(Error::UnknownChain(c)) && c@
                == NEUTRON_CHAIN_ID@) && *final(self) == *old(self),
            old(self).has_chain(NEUTRON_CHAIN_ID@) && old(self).code_id(NEUTRON_CHAIN_ID@, which.name())
                is None ==> (r matches Err(Error::UnknownContract(n)) && n@ == which.name())
                && *final(self) == *old(self),
            old(self).has_chain(NEUTRON_CHAIN_ID@) && old(self).code_id(NEUTRON_CHAIN_ID@, which.name())
                is Some ==> r is Ok && (final(self).slot(which) matches Some(m) && Some(m.code_id)
                == old(self).code_id(NEUTRON_CHAIN_ID@, which.name()) && m.address@ == address@
                && m.artifact_path@ == artifact_path(old(self).artifacts_dir@, which.name()))
                && old(self).after_instantiation(
                final(self).with_slot(which, old(self).slot(which)),
                NEUTRON_CHAIN_ID@,
                which.name(),
                address@,
            ),
    {
        let name = which.contract_name();
        let res = self.record_instantiation(NEUTRON_CHAIN_ID, name, address.clone());
        if res.is_err() {
            return res;
        }
        let code_id = match self.code_id_of(NEUTRON_CHAIN_ID, name) {
            Some(id) => id,
            None => {
                return Err(Error::UnknownContract(name.to_owned()));
            },
        };
        let mut artifact_path = self.artifacts_dir.clone();
        artifact_path.append("/");
        artifact_path.append(name);
        artifact_path.append(".wasm");
        let info = Some(DeployedContractInfo { code_id, address, artifact_path });
        match which {
            Singleton::AuctionsManager => self.auctions_manager = info,
            Singleton::PriceOracle => self.price_oracle = info,
            Singleton::TokenRegistry => self.token_registry = info,
            Singleton::Factory => self.factory = info,
        }
        Ok(())
    }

    /// The request that creates an auction of `pair` through the auctions
    /// manager, offering `amount_denom_a` of the pair's first denom.
    pub fn tx_create_auction(
        &self,
        sender_key: &str,
        pair: (String, String),
        auction_strategy: AuctionStrategy,
        chain_halt_config: ChainHaltConfig,
        price_freshness_strategy: PriceFreshnessStrategy,
        label: &str,
        amount_denom_a: u128,
    ) -> (r: Result<ExecuteRequest, Error>)
        ensures
            self.auction_request(
                sender_key@,
                pair,
                auction_strategy,
                chain_halt_config,
                price_freshness_strategy,
                label@,
                amount_denom_a,
                r,
            ),
    {
        let manager = match self.get_auctions_manager() {
            Ok(m) => m,
            Err(e) => {
                return Err(e);
            },
        };
        let flags = funds_flags_string(amount_denom_a, pair.0.as_str(), CREATE_AUCTION_GAS);
        Ok(
            ExecuteRequest {
                chain_id: NEUTRON_CHAIN_ID.to_owned(),
                contract_addr: manager.address.clone(),
                sender_key: sender_key.to_owned(),
                msg: ExecuteMsg::NewAuction(
                    NewAuction {
                        pair,
                        auction_strategy,
                        chain_halt_config,
                        price_freshness_strategy,
                        label: label.to_owned(),
                    },
                ),
                flags,
            },
        )
    }
}

} // verus!

verus! {

impl TestContext {
    /// The query that asks the auctions manager for the auction of `pair`.
    pub fn get_auction_query(&self, pair: (String, String)) -> (r: Result<QueryRequest, Error>)
        ensures
            match self.auctions_manager {
                None => r matches Err(Error::SingletonNotDeployed(n)) && n@
                    == AUCTIONS_MANAGER_CONTRACT_NAME@,
                Some(manager) => r matches Ok(q) && q.chain_id@ == NEUTRON_CHAIN_ID@
                    && q.contract_addr@ == manager.address@ && q.msg == (QueryMsg::GetPairAddr { pair }),
            },
    {
        let manager = match self.get_auctions_manager() {
            Ok(m) => m,
            Err(e) => {
                return Err(e);
            },
        };
        Ok(
            QueryRequest {
                chain_id: NEUTRON_CHAIN_ID.to_owned(),
                contract_addr: manager.address.clone(),
                msg: QueryMsg::GetPairAddr { pair },
            },
        )
    }

    /// The query that asks the pool factory for the pool of `denom_a` and
    /// `denom_b`.
    pub fn get_astroport_pool_query(&self, denom_a: &str, denom_b: &str) -> (r: Result<QueryRequest, Error>)
        ensures
            match self.factory {
                None => r matches Err(Error::SingletonNotDeployed(n)) && n@ == FACTORY_CONTRACT_NAME@,
                Some(factory) => r matches Ok(q) && q.chain_id@ == NEUTRON_CHAIN_ID@
                    && q.contract_addr@ == factory.address@ && (q.msg matches QueryMsg::Pair { denom_a: a, denom_b: b }
                    && a@ == denom_a@ && b@ == denom_b@),
            },
    {
        let factory = match self.get_singleton(Singleton::Factory) {
            Ok(f) => f,
            Err(e) => {
                return Err(e);
            },
        };
        Ok(
            QueryRequest {
                chain_id: NEUTRON_CHAIN_ID.to_owned(),
                contract_addr: factory.address.clone(),
                msg: QueryMsg::Pair { denom_a: denom_a.to_owned(), denom_b: denom_b.to_owned() },
            },
        )
    }
}

/// The contract that a query resolved to: `NotFound` naming `what` when the
/// network reported none.
pub fn resolve_contract(response: Option<String>, code_id: u64, what: &str) -> (r: Result<ContractHandle, Error>)
    ensures
        match response {
            None => r matches Err(Error::NotFound(n)) && n@ == what@,
            Some(addr) => r matches Ok(h) && h.code_id == code_id && h.address == Some(addr),
        },
{
    match response {
        Some(addr) => Ok(ContractHandle { code_id, address: Some(addr) }),
        None => Err(Error::NotFound(what.to_owned())),
    }
}

} // verus!
