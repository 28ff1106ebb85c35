use vstd::prelude::*;
use vstd::string::StringExecFns;

use crate::error::Error;
use crate::{
    AUCTIONS_MANAGER_CONTRACT_NAME, FACTORY_CONTRACT_NAME, PRICE_ORACLE_CONTRACT_NAME,
    TOKEN_REGISTRY_CONTRACT_NAME,
};

verus! {

/// What the registry keeps of one configured chain.
#[derive(Debug)]
pub struct ChainInfo {
    pub chain_id: String,
    pub denom: String,
    pub bech32_prefix: String,
}

/// One code upload: `contract` was uploaded to `chain_id` as `code_id`.
#[derive(Debug)]
pub struct CodeRecord {
    pub chain_id: String,
    pub contract: String,
    pub code_id: u64,
}

/// One instantiation: an instance of `contract` lives at `address` on `chain_id`.
#[derive(Debug)]
pub struct AddrRecord {
    pub chain_id: String,
    pub contract: String,
    pub address: String,
}

/// A tokenfactory token created by `owner` under `subdenom`, with its full denom.
#[derive(Debug)]
pub struct DenomRecord {
    pub owner: String,
    pub subdenom: String,
    pub denom: String,
}

/// The full denom of the tokenfactory token `subdenom` created by `owner`.
pub open spec fn tokenfactory_denom(owner: Seq<char>, subdenom: Seq<char>) -> Seq<char> {
    "factory/"@ + owner + "/"@ + subdenom
}

/// The well-known deployments that exist at most once per test run.
#[derive(PartialEq, Eq, Structural, Clone, Copy, Debug)]
pub enum Singleton {
    AuctionsManager,
    PriceOracle,
    TokenRegistry,
    Factory,
}

impl Singleton {
    /// The logical contract name of this deployment.
    pub open spec fn name(self) -> Seq<char> {
        match self {
            Singleton::AuctionsManager => AUCTIONS_MANAGER_CONTRACT_NAME@,
            Singleton::PriceOracle => PRICE_ORACLE_CONTRACT_NAME@,
            Singleton::TokenRegistry => TOKEN_REGISTRY_CONTRACT_NAME@,
            Singleton::Factory => FACTORY_CONTRACT_NAME@,
        }
    }

    /// The logical contract name of this deployment.
    pub fn contract_name(&self) -> (r: &'static str)
        ensures
            r@ == self.name(),
    {
        match self {
            Singleton::AuctionsManager => AUCTIONS_MANAGER_CONTRACT_NAME,
            Singleton::PriceOracle => PRICE_ORACLE_CONTRACT_NAME,
            Singleton::TokenRegistry => TOKEN_REGISTRY_CONTRACT_NAME,
            Singleton::Factory => FACTORY_CONTRACT_NAME,
        }
    }
}

/// A singleton deployment (auctions manager, price oracle, ...).
#[derive(Debug)]
pub struct DeployedContractInfo {
    pub code_id: u64,
    pub address: String,
    pub artifact_path: String,
}

/// A resolved contract: its latest code id and, when exactly one instance
/// exists, its address.
#[derive(Debug)]
pub struct ContractHandle {
    pub code_id: u64,
    pub address: Option<String>,
}

/// The deployment registry of one test run.
///
/// Code uploads and instantiations are kept as append-only logs: the code id
/// of a contract is the one of its latest upload, and its addresses are those
/// of its instantiations in call order.
#[derive(Debug)]
pub struct TestContext {
    pub artifacts_dir: String,
    pub chains: Vec<ChainInfo>,
    pub contract_codes: Vec<CodeRecord>,
    pub contract_addrs: Vec<AddrRecord>,
    pub auctions_manager: Option<DeployedContractInfo>,
    pub price_oracle: Option<DeployedContractInfo>,
    pub token_registry: Option<DeployedContractInfo>,
    pub factory: Option<DeployedContractInfo>,
    pub tokenfactory_denoms: Vec<DenomRecord>,
}

/// The code id of the latest upload of `name` to `chain` among the first `n`
/// records of `log`.
pub open spec fn code_in(log: Seq<CodeRecord>, chain: Seq<char>, name: Seq<char>, n: int) -> Option<u64>
    decreases n,
{
    if n <= 0 {
        None
    } else if log[n - 1].chain_id@ == chain && log[n - 1].contract@ == name {
        Some(log[n - 1].code_id)
    } else {
        code_in(log, chain, name, n - 1)
    }
}

/// The addresses of the instances of `name` on `chain` among the first `n`
/// records of `log`, in the order they were recorded.
pub open spec fn addrs_in(log: Seq<AddrRecord>, chain: Seq<char>, name: Seq<char>, n: int) -> Seq<Seq<char>>
    decreases n,
{
    if n <= 0 {
        Seq::empty()
    } else {
        let prev = addrs_in(log, chain, name, n - 1);
        if log[n - 1].chain_id@ == chain && log[n - 1].contract@ == name {
            prev.push(log[n - 1].address@)
        } else {
            prev
        }
    }
}

proof fn lemma_code_in_push(log: Seq<CodeRecord>, r: CodeRecord, chain: Seq<char>, name: Seq<char>, n: int)
    requires
        0 <= n <= log.len(),
    ensures
        code_in(log.push(r), chain, name, n) == code_in(log, chain, name, n),
    decreases n,
{
    if n > 0 {
        lemma_code_in_push(log, r, chain, name, n - 1);
    }
}

proof fn lemma_addrs_in_push(log: Seq<AddrRecord>, r: AddrRecord, chain: Seq<char>, name: Seq<char>, n: int)
    requires
        0 <= n <= log.len(),
    ensures
        addrs_in(log.push(r), chain, name, n) == addrs_in(log, chain, name, n),
    decreases n,
{
    if n > 0 {
        lemma_addrs_in_push(log, r, chain, name, n - 1);
    }
}

/// After `name` is uploaded to `chain` as `code` and an instance of it is then
/// recorded at `addr`, the contract resolves to `code` and its addresses are
/// the earlier ones followed by `addr`.
pub proof fn lemma_upload_then_instantiate(
    pre: TestContext,
    mid: TestContext,
    post: TestContext,
    chain: Seq<char>,
    name: Seq<char>,
    code: u64,
    addr: Seq<char>,
)
    requires
        pre.after_upload(mid, chain, name, code),
        mid.after_instantiation(post, chain, name, addr),
    ensures
        post.code_id(chain, name) == Some(code),
        post.addresses(chain, name) == pre.addresses(chain, name).push(addr),
{
    assert(mid.code_id(chain, name) == Some(code));
    assert(post.addresses(chain, name) == mid.addresses(chain, name).push(addr));
}

/// Of two uploads of the same contract, the later one decides its code id.
pub proof fn lemma_latest_upload_wins(
    pre: TestContext,
    mid: TestContext,
    post: TestContext,
    chain: Seq<char>,
    name: Seq<char>,
    first: u64,
    second: u64,
)
    requires
        pre.after_upload(mid, chain, name, first),
        mid.after_upload(post, chain, name, second),
    ensures
        post.code_id(chain, name) == Some(second),
        post.addresses(chain, name) == pre.addresses(chain, name),
{
    assert(post.code_id(chain, name) == Some(second));
}

/// Two instances of one contract recorded in turn are listed in call order,
/// after which the contract has more than one address and its code id is
/// unchanged.
pub proof fn lemma_instances_in_call_order(
    pre: TestContext,
    mid: TestContext,
    post: TestContext,
    chain: Seq<char>,
    name: Seq<char>,
    first: Seq<char>,
    second: Seq<char>,
)
    requires
        pre.after_instantiation(mid, chain, name, first),
        mid.after_instantiation(post, chain, name, second),
    ensures
        post.addresses(chain, name) == pre.addresses(chain, name).push(first).push(second),
        post.addresses(chain, name).len() > 1,
        post.addresses(chain, name)[post.addresses(chain, name).len() - 2] == first,
        post.addresses(chain, name)[post.addresses(chain, name).len() - 1] == second,
        post.code_id(chain, name) == pre.code_id(chain, name),
{
    assert(mid.addresses(chain, name) == pre.addresses(chain, name).push(first));
    assert(post.addresses(chain, name) == mid.addresses(chain, name).push(second));
}

/// Every cached tokenfactory denom equals the one derived from its owner and
/// subdenom, so a cached lookup and a fresh derivation always agree.
pub proof fn lemma_cached_denom_is_derived(ctx: TestContext, i: int)
    requires
        ctx.wf(),
        0 <= i < ctx.tokenfactory_denoms@.len(),
    ensures
        ctx.tokenfactory_denoms@[i].denom@ == tokenfactory_denom(
            ctx.tokenfactory_denoms@[i].owner@,
            ctx.tokenfactory_denoms@[i].subdenom@,
        ),
{
}

impl TestContext {
    /// Whether a chain with this id is registered.
    pub open spec fn has_chain(&self, id: Seq<char>) -> bool {
        exists|i: int| 0 <= i < self.chains@.len() && #[trigger] self.chains@[i].chain_id@ == id
    }

    /// The code id most recently uploaded for `name` on `chain`.
    pub open spec fn code_id(&self, chain: Seq<char>, name: Seq<char>) -> Option<u64> {
        code_in(self.contract_codes@, chain, name, self.contract_codes@.len() as int)
    }

    /// The addresses of all instances of `name` on `chain`, first deployed first.
    pub open spec fn addresses(&self, chain: Seq<char>, name: Seq<char>) -> Seq<Seq<char>> {
        addrs_in(self.contract_addrs@, chain, name, self.contract_addrs@.len() as int)
    }

    /// Chain ids are unique, every upload targets a registered chain, and
    /// every instance belongs to a contract whose code was uploaded.
    pub open spec fn wf(&self) -> bool {
        &&& forall|i: int, j: int|
            0 <= i < j < self.chains@.len() ==> #[trigger] self.chains@[i].chain_id@
                != #[trigger] self.chains@[j].chain_id@
        &&& forall|i: int|
            0 <= i < self.contract_codes@.len() ==> self.has_chain(
                #[trigger] self.contract_codes@[i].chain_id@,
            )
        &&& forall|i: int|
            0 <= i < self.contract_addrs@.len() ==> self.code_id(
                #[trigger] self.contract_addrs@[i].chain_id@,
                self.contract_addrs@[i].contract@,
            ) is Some
        &&& forall|i: int|
            0 <= i < self.tokenfactory_denoms@.len() ==> (#[trigger] self.tokenfactory_denoms@[i]).denom@
                == tokenfactory_denom(
                self.tokenfactory_denoms@[i].owner@,
                self.tokenfactory_denoms@[i].subdenom@,
            )
    }

    /// The slot of `which`.
    pub open spec fn slot(&self, which: Singleton) -> Option<DeployedContractInfo> {
        match which {
            Singleton::AuctionsManager => self.auctions_manager,
            Singleton::PriceOracle => self.price_oracle,
            Singleton::TokenRegistry => self.token_registry,
            Singleton::Factory => self.factory,
        }
    }

    /// `self` with the slot of `which` set to `m`.
    pub open spec fn with_slot(self, which: Singleton, m: Option<DeployedContractInfo>) -> TestContext {
        match which {
            Singleton::AuctionsManager => TestContext { auctions_manager: m, ..self },
            Singleton::PriceOracle => TestContext { price_oracle: m, ..self },
            Singleton::TokenRegistry => TestContext { token_registry: m, ..self },
            Singleton::Factory => TestContext { factory: m, ..self },
        }
    }

    /// The singleton slots and the tokenfactory denoms of `self` and `post` agree.
    pub open spec fn same_singletons(&self, post: TestContext) -> bool {
        &&& post.tokenfactory_denoms == self.tokenfactory_denoms
        &&& post.auctions_manager == self.auctions_manager
        &&& post.price_oracle == self.price_oracle
        &&& post.token_registry == self.token_registry
        &&& post.factory == self.factory
    }

    /// `post` is `self` after uploading `name` to `chain` as `code`: that code
    /// id replaces the previous one and nothing else changes.
    pub open spec fn after_upload(&self, post: TestContext, chain: Seq<char>, name: Seq<char>, code: u64) -> bool {
        &&& post.artifacts_dir == self.artifacts_dir
        &&& post.chains == self.chains
        &&& post.contract_addrs == self.contract_addrs
        &&& self.same_singletons(post)
        &&& forall|c: Seq<char>, n: Seq<char>|
            #[trigger] post.code_id(c, n) == if c == chain && n == name {
                Some(code)
            } else {
                self.code_id(c, n)
            }
    }

    /// `post` is `self` after recording an instance of `name` on `chain` at
    /// `addr`: the address is appended to that contract's addresses and
    /// nothing else changes.
    pub open spec fn after_instantiation(&self, post: TestContext, chain: Seq<char>, name: Seq<char>, addr: Seq<char>) -> bool {
        &&& post.artifacts_dir == self.artifacts_dir
        &&& post.chains == self.chains
        &&& post.contract_codes == self.contract_codes
        &&& self.same_singletons(post)
        &&& forall|c: Seq<char>, n: Seq<char>|
            #[trigger] post.addresses(c, n) == if c == chain && n == name {
                self.addresses(c, n).push(addr)
            } else {
                self.addresses(c, n)
            }
    }

    /// An empty registry whose contract artifacts live in `artifacts_dir`.
    pub fn new(artifacts_dir: String) -> (r: TestContext)
        ensures
            r.wf(),
            r.artifacts_dir == artifacts_dir,
            r.chains@.len() == 0,
            r.contract_codes@.len() == 0,
            r.contract_addrs@.len() == 0,
            r.auctions_manager is None,
            r.price_oracle is None,
            r.token_registry is None,
            r.factory is None,
            r.tokenfactory_denoms@.len() == 0,
    {
        TestContext {
            artifacts_dir,
            chains: Vec::new(),
            contract_codes: Vec::new(),
            contract_addrs: Vec::new(),
            auctions_manager: None,
            price_oracle: None,
            token_registry: None,
            factory: None,
            tokenfactory_denoms: Vec::new(),
        }
    }

    /// Registers a chain; a second chain with the same id is refused.
    pub fn register_chain(&mut self, chain: ChainInfo) -> (r: Result<(), Error>)
        requires
            old(self).wf(),
        ensures
            final(self).wf(),
            old(self).has_chain(chain.chain_id@) ==> (r matches Err(Error::DuplicateChain(c))
                && c@ == chain.chain_id@) && *final(self) == *old(self),
            !old(self).has_chain(chain.chain_id@) ==> r is Ok && final(self).chains@
                == old(self).chains@.push(chain) && final(self).artifacts_dir
                == old(self).artifacts_dir && final(self).contract_codes
                == old(self).contract_codes && final(self).contract_addrs
                == old(self).contract_addrs && old(self).same_singletons(*final(self))
                && final(self).has_chain(chain.chain_id@) && forall|x: Seq<char>|
                old(self).has_chain(x) ==> #[trigger] final(self).has_chain(x),
    {
        match self.chain_position(chain.chain_id.as_str()) {
            Some(_) => Err(Error::DuplicateChain(chain.chain_id)),
            None => {
                let ghost pre = *self;
                self.chains.push(chain);
                proof {
                    assert forall|x: Seq<char>| pre.has_chain(x) implies self.has_chain(x) by {
                        let k = choose|k: int|
                            0 <= k < pre.chains@.len() && #[trigger] pre.chains@[k].chain_id@ == x;
                        assert(self.chains@[k] == pre.chains@[k]);
                    }
                    assert(self.chains@[pre.chains@.len() as int] == chain);
                    assert(self.chains@[pre.chains@.len() as int].chain_id@ == chain.chain_id@);
                }
                Ok(())
            },
        }
    }

    /// Records that `contract` was uploaded to `chain_id` as `code_id`. A
    /// later upload of the same contract overrides the code id.
    pub fn record_code_upload(&mut self, chain_id: &str, contract: &str, code_id: u64) -> (r: Result<(), Error>)
        requires
            old(self).wf(),
        ensures
            final(self).wf(),
            !old(self).has_chain(chain_id@) ==> (r matches Err(Error::UnknownChain(c)) && c@
                == chain_id@) && *final(self) == *old(self),
            old(self).has_chain(chain_id@) ==> r is Ok && old(self).after_upload(
                *final(self),
                chain_id@,
                contract@,
                code_id,
            ),
    {
        let pos = self.chain_position(chain_id);
        if pos.is_none() {
            return Err(Error::UnknownChain(chain_id.to_owned()));
        }
        let ghost pre = *self;
        proof {
            let k = pos->Some_0 as int;
            assert(pre.chains@[k].chain_id@ == chain_id@);
        }
        let rec = CodeRecord { chain_id: chain_id.to_owned(), contract: contract.to_owned(), code_id };
        self.contract_codes.push(rec);
        proof {
            let len = pre.contract_codes@.len() as int;
            assert(self.contract_codes@[len] == rec);
            assert forall|c: Seq<char>, n: Seq<char>|
                #[trigger] self.code_id(c, n) == if c == chain_id@ && n == contract@ {
                    Some(code_id)
                } else {
                    pre.code_id(c, n)
                } by {
                lemma_code_in_push(pre.contract_codes@, rec, c, n, len);
            }
            assert forall|i: int| 0 <= i < self.contract_codes@.len() implies self.has_chain(
                #[trigger] self.contract_codes@[i].chain_id@,
            ) by {
                if i < len {
                    assert(self.contract_codes@[i] == pre.contract_codes@[i]);
                } else {
                    assert(self.chains@[pos->Some_0 as int].chain_id@ == chain_id@);
                }
            }
            assert forall|i: int| 0 <= i < self.contract_addrs@.len() implies self.code_id(
                #[trigger] self.contract_addrs@[i].chain_id@,
                self.contract_addrs@[i].contract@,
            ) is Some by {
                let a = self.contract_addrs@[i];
                lemma_code_in_push(pre.contract_codes@, rec, a.chain_id@, a.contract@, len);
            }
        }
        Ok(())
    }

    /// The code id most recently uploaded for `contract` on `chain_id`.
    pub fn code_id_of(&self, chain_id: &str, contract: &str) -> (r: Option<u64>)
        ensures
            r == self.code_id(chain_id@, contract@),
    {
        let c = chain_id.to_owned();
        let n = contract.to_owned();
        let mut i: usize = self.contract_codes.len();
        while i > 0
            invariant
                i <= self.contract_codes@.len(),
                c@ == chain_id@,
                n@ == contract@,
                self.code_id(chain_id@, contract@) == code_in(self.contract_codes@, chain_id@, contract@, i as int),
            decreases i,
        {
            let rec = &self.contract_codes[i - 1];
            if rec.chain_id == c && rec.contract == n {
                return Some(rec.code_id);
            }
            i = i - 1;
        }
        None
    }

    /// Records a new instance of `contract` on `chain_id` at `address`. The
    /// contract's code must have been uploaded to that chain before.
    pub fn record_instantiation(&mut self, chain_id: &str, contract: &str, address: String) -> (r: Result<(), Error>)
        requires
            old(self).wf(),
        ensures
            final(self).wf(),
            !old(self).has_chain(chain_id@) ==> (r matches Err(Error::UnknownChain(c)) && c@
                == chain_id@) && *final(self) == *old(self),
            old(self).has_chain(chain_id@) && old(self).code_id(chain_id@, contract@) is None ==> (r matches Err(
                Error::UnknownContract(n),
            ) && n@ == contract@) && *final(self) == *old(self),
            old(self).has_chain(chain_id@) && old(self).code_id(chain_id@, contract@) is Some ==> r is Ok
                && old(self).after_instantiation(*final(self), chain_id@, contract@, address@),
    {
        if self.chain_position(chain_id).is_none() {
            return Err(Error::UnknownChain(chain_id.to_owned()));
        }
        if self.code_id_of(chain_id, contract).is_none() {
            return Err(Error::UnknownContract(contract.to_owned()));
        }
        let ghost pre = *self;
        let rec = AddrRecord { chain_id: chain_id.to_owned(), contract: contract.to_owned(), address };
        self.contract_addrs.push(rec);
        proof {
            let len = pre.contract_addrs@.len() as int;
            assert(self.contract_addrs@[len] == rec);
            assert forall|c: Seq<char>, n: Seq<char>|
                #[trigger] self.addresses(c, n) == if c == chain_id@ && n == contract@ {
                    pre.addresses(c, n).push(address@)
                } else {
                    pre.addresses(c, n)
                } by {
                lemma_addrs_in_push(pre.contract_addrs@, rec, c, n, len);
            }
            assert forall|i: int| 0 <= i < self.contract_addrs@.len() implies self.code_id(
                #[trigger] self.contract_addrs@[i].chain_id@,
                self.contract_addrs@[i].contract@,
            ) is Some by {
                if i < len {
                    assert(self.contract_addrs@[i] == pre.contract_addrs@[i]);
                }
            }
            assert forall|i: int| 0 <= i < self.contract_codes@.len() implies self.has_chain(
                #[trigger] self.contract_codes@[i].chain_id@,
            ) by {
                let x = pre.contract_codes@[i].chain_id@;
                assert(pre.has_chain(x));
                let k = choose|k: int| 0 <= k < pre.chains@.len() && #[trigger] pre.chains@[k].chain_id@ == x;
                assert(self.chains@[k].chain_id@ == x);
            }
        }
        Ok(())
    }

    /// The addresses of all instances of `contract` on `chain_id`, first
    /// deployed first.
    pub fn contract_addresses(&self, chain_id: &str, contract: &str) -> (r: Vec<String>)
        ensures
            r@.map_values(|a: String| a@) == self.addresses(chain_id@, contract@),
    {
        let c = chain_id.to_owned();
        let n = contract.to_owned();
        let mut out: Vec<String> = Vec::new();
        let mut i: usize = 0;
        while i < self.contract_addrs.len()
            invariant
                i <= self.contract_addrs@.len(),
                c@ == chain_id@,
                n@ == contract@,
                out@.map_values(|a: String| a@) == addrs_in(self.contract_addrs@, chain_id@, contract@, i as int),
            decreases self.contract_addrs@.len() - i,
        {
            let rec = &self.contract_addrs[i];
            if rec.chain_id == c && rec.contract == n {
                let ghost prev = out@;
                out.push(rec.address.clone());
                assert(out@.map_values(|a: String| a@) =~= prev.map_values(|a: String| a@).push(rec.address@));
            }
            i = i + 1;
        }
        out
    }

    /// Resolves `contract` on `chain_id` to its latest code id and, when it
    /// has exactly one instance, that instance's address.
    pub fn get_contract(&self, chain_id: &str, contract: &str) -> (r: Result<ContractHandle, Error>)
        ensures
            !self.has_chain(chain_id@) ==> (r matches Err(Error::UnknownChain(c)) && c@ == chain_id@),
            self.has_chain(chain_id@) && self.code_id(chain_id@, contract@) is None ==> (r matches Err(
                Error::UnknownContract(n),
            ) && n@ == contract@),
            self.has_chain(chain_id@) && self.code_id(chain_id@, contract@) is Some && self.addresses(
                chain_id@,
                contract@,
            ).len() > 1 ==> (r matches Err(Error::AmbiguousContract(n)) && n@ == contract@),
            self.has_chain(chain_id@) && self.code_id(chain_id@, contract@) is Some && self.addresses(
                chain_id@,
                contract@,
            ).len() <= 1 ==> (r matches Ok(h) && Some(h.code_id) == self.code_id(chain_id@, contract@)
                && (self.addresses(chain_id@, contract@).len() == 0 ==> h.address is None) && (
            self.addresses(chain_id@, contract@).len() == 1 ==> (h.address matches Some(a) && a@
                == self.addresses(chain_id@, contract@)[0]))),
    {
        if self.chain_position(chain_id).is_none() {
            return Err(Error::UnknownChain(chain_id.to_owned()));
        }
        let code_id = match self.code_id_of(chain_id, contract) {
            Some(id) => id,
            None => {
                return Err(Error::UnknownContract(contract.to_owned()));
            },
        };
        let mut addrs = self.contract_addresses(chain_id, contract);
        assert(addrs@.len() == self.addresses(chain_id@, contract@).len());
        if addrs.len() > 1 {
            return Err(Error::AmbiguousContract(contract.to_owned()));
        }
        let address = addrs.pop();
        proof {
            if addrs@.len() == 0 && address is Some {
                assert(self.addresses(chain_id@, contract@)[0] == address->Some_0@);
            }
        }
        Ok(ContractHandle { code_id, address })
    }

    /// The registered chain with this id.
    pub fn get_chain(&self, chain_id: &str) -> (r: Result<&ChainInfo, Error>)
        ensures
            self.has_chain(chain_id@) <==> r is Ok,
            r matches Ok(c) ==> c.chain_id@ == chain_id@,
            r matches Err(e) ==> (e matches Error::UnknownChain(c) && c@ == chain_id@),
    {
        match self.chain_position(chain_id) {
            Some(i) => Ok(&self.chains[i]),
            None => Err(Error::UnknownChain(chain_id.to_owned())),
        }
    }

    /// The deployed auctions manager.
    pub fn get_auctions_manager(&self) -> (r: Result<&DeployedContractInfo, Error>)
        ensures
            match self.auctions_manager {
                Some(m) => r == Ok::<&DeployedContractInfo, Error>(&m),
                None => r matches Err(Error::SingletonNotDeployed(n)) && n@ == AUCTIONS_MANAGER_CONTRACT_NAME@,
            },
    {
        self.get_singleton(Singleton::AuctionsManager)
    }

    /// The deployment in the slot of `which`.
    pub fn get_singleton(&self, which: Singleton) -> (r: Result<&DeployedContractInfo, Error>)
        ensures
            match self.slot(which) {
                Some(m) => r == Ok::<&DeployedContractInfo, Error>(&m),
                None => r matches Err(Error::SingletonNotDeployed(n)) && n@ == which.name(),
            },
    {
        let slot = match which {
            Singleton::AuctionsManager => &self.auctions_manager,
            Singleton::PriceOracle => &self.price_oracle,
            Singleton::TokenRegistry => &self.token_registry,
            Singleton::Factory => &self.factory,
        };
        match slot {
            Some(m) => Ok(m),
            None => Err(Error::SingletonNotDeployed(which.contract_name().to_owned())),
        }
    }

    /// The full denom of the tokenfactory token `subdenom` created by `owner`.
    pub fn get_tokenfactory_denom(&self, owner: &str, subdenom: &str) -> (r: String)
        ensures
            r@ == tokenfactory_denom(owner@, subdenom@),
    {
        let mut s = "factory/".to_owned();
        s.append(owner);
        s.append("/");
        s.append(subdenom);
        s
    }

    /// Caches the denom of the tokenfactory token `subdenom` created by `owner`.
    pub fn record_tokenfactory_token(&mut self, owner: &str, subdenom: &str) -> (r: String)
        requires
            old(self).wf(),
        ensures
            final(self).wf(),
            r@ == tokenfactory_denom(owner@, subdenom@),
            final(self).tokenfactory_denoms@.len() == old(self).tokenfactory_denoms@.len() + 1,
            final(self).tokenfactory_denoms@.last().owner@ == owner@,
            final(self).tokenfactory_denoms@.last().subdenom@ == subdenom@,
            final(self).tokenfactory_denoms@.last().denom@ == r@,
            forall|i: int|
                0 <= i < old(self).tokenfactory_denoms@.len() ==> #[trigger] final(self).tokenfactory_denoms@[i]
                    == old(self).tokenfactory_denoms@[i],
            final(self).artifacts_dir == old(self).artifacts_dir,
            final(self).chains == old(self).chains,
            final(self).contract_codes == old(self).contract_codes,
            final(self).contract_addrs == old(self).contract_addrs,
            final(self).auctions_manager == old(self).auctions_manager,
            final(self).price_oracle == old(self).price_oracle,
            final(self).token_registry == old(self).token_registry,
            final(self).factory == old(self).factory,
    {
        let denom = self.get_tokenfactory_denom(owner, subdenom);
        let rec = DenomRecord { owner: owner.to_owned(), subdenom: subdenom.to_owned(), denom: denom.clone() };
        let ghost pre = *self;
        self.tokenfactory_denoms.push(rec);
        proof {
            assert forall|i: int| 0 <= i < self.tokenfactory_denoms@.len() implies (#[trigger] self.tokenfactory_denoms@[i]).denom@
                == tokenfactory_denom(
                self.tokenfactory_denoms@[i].owner@,
                self.tokenfactory_denoms@[i].subdenom@,
            ) by {
                if i < pre.tokenfactory_denoms@.len() {
                    assert(self.tokenfactory_denoms@[i] == pre.tokenfactory_denoms@[i]);
                }
            }
            assert forall|i: int| 0 <= i < self.contract_codes@.len() implies self.has_chain(
                #[trigger] self.contract_codes@[i].chain_id@,
            ) by {
                let x = pre.contract_codes@[i].chain_id@;
                assert(pre.has_chain(x));
                let k = choose|k: int| 0 <= k < pre.chains@.len() && #[trigger] pre.chains@[k].chain_id@ == x;
                assert(self.chains@[k].chain_id@ == x);
            }
        }
        denom
    }

    /// The cached denom of the tokenfactory token `subdenom` created by
    /// `owner`, if that token was recorded.
    pub fn cached_tokenfactory_denom(&self, owner: &str, subdenom: &str) -> (r: Option<String>)
        requires
            self.wf(),
        ensures
            r is None <==> !exists|i: int|
                0 <= i < self.tokenfactory_denoms@.len() && #[trigger] self.tokenfactory_denoms@[i].owner@
                    == owner@ && self.tokenfactory_denoms@[i].subdenom@ == subdenom@,
            r matches Some(d) ==> d@ == tokenfactory_denom(owner@, subdenom@),
    {
        let o = owner.to_owned();
        let sd = subdenom.to_owned();
        let mut i: usize = 0;
        while i < self.tokenfactory_denoms.len()
            invariant
                i <= self.tokenfactory_denoms@.len(),
                self.wf(),
                o@ == owner@,
                sd@ == subdenom@,
                forall|k: int|
                    0 <= k < i ==> !(#[trigger] self.tokenfactory_denoms@[k].owner@ == owner@
                        && self.tokenfactory_denoms@[k].subdenom@ == subdenom@),
            decreases self.tokenfactory_denoms@.len() - i,
        {
            let rec = &self.tokenfactory_denoms[i];
            if rec.owner == o && rec.subdenom == sd {
                assert(self.tokenfactory_denoms@[i as int].denom@ == tokenfactory_denom(owner@, subdenom@));
                return Some(rec.denom.clone());
            }
            i = i + 1;
        }
        None
    }

    /// The position of the chain with this id, if one is registered.
    fn chain_position(&self, id: &str) -> (r: Option<usize>)
        ensures
            match r {
                Some(i) => i < self.chains@.len() && self.chains@[i as int].chain_id@ == id@,
                None => !self.has_chain(id@),
            },
    {
        let key = id.to_owned();
        let mut i: usize = 0;
        while i < self.chains.len()
            invariant
                i <= self.chains@.len(),
                key@ == id@,
                forall|k: int| 0 <= k < i ==> self.chains@[k].chain_id@ != id@,
            decreases self.chains@.len() - i,
        {
            if self.chains[i].chain_id == key {
                return Some(i);
            }
            i = i + 1;
        }
        None
    }
}

} // verus!
