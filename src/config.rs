use vstd::prelude::*;

use crate::numeric::Decimal;
use crate::registry::ChainInfo;

verus! {

/// A JSON value of the `serde_json` crate, carried through unchanged.
#[verifier::external_type_specification]
#[verifier::external_body]
pub struct ExJsonValue(serde_json::Value);

/// The chains of a configuration document.
pub struct ChainsVec {
    pub chains: Vec<ConfigChain>,
}

impl From<ChainsVec> for Vec<ConfigChain> {
    fn from(v: ChainsVec) -> (r: Vec<ConfigChain>)
        ensures
            r == v.chains,
    {
        v.chains
    }
}

impl vstd::std_specs::convert::FromSpecImpl<ChainsVec> for Vec<ConfigChain> {
    open spec fn obeys_from_spec() -> bool {
        true
    }

    open spec fn from_spec(v: ChainsVec) -> Vec<ConfigChain> {
        v.chains
    }
}

/// Static description of one simulated chain, as configured.
pub struct ConfigChain {
    pub chain_type: Option<String>,
    pub coin_type: i32,
    pub binary: String,
    pub bech32_prefix: String,
    pub denom: String,
    pub trusting_period: String,
    pub debugging: bool,
    pub block_time: String,
    pub host_port_override: Option<Vec<(String, String)>>,
    pub ics_consumer_link: Option<String>,
    pub name: String,
    pub chain_id: String,
    pub docker_image: DockerImage,
    pub gas_prices: String,
    pub gas_adjustment: Decimal,
    pub number_vals: i32,
    pub number_node: i32,
    pub ibc_paths: Option<Vec<String>>,
    pub genesis: Genesis,
    pub config_file_overrides: Option<Vec<ConfigFileOverrides>>,
    pub evm_load_state_path: Option<String>,
}

/// Docker image of a chain's node.
pub struct DockerImage {
    pub version: String,
    pub repository: Option<String>,
}

/// Genesis modifications and accounts of a chain.
pub struct Genesis {
    pub modify: Vec<KVStore>,
    pub accounts: Vec<GenesisAccount>,
}

/// One genesis override: `value` is stored under `key`.
pub struct KVStore {
    pub key: String,
    pub value: serde_json::Value,
}

/// An account funded at genesis.
pub struct GenesisAccount {
    pub name: String,
    pub amount: String,
    pub address: String,
    pub mnemonic: String,
}

/// A path override in one of the node's configuration files.
pub struct ConfigFileOverrides {
    pub file: String,
    pub paths: String,
}

impl ConfigChain {
    /// What the registry keeps of this chain: its id, denom and prefix.
    pub fn chain_info(&self) -> (r: ChainInfo)
        ensures
            r.chain_id@ == self.chain_id@,
            r.denom@ == self.denom@,
            r.bech32_prefix@ == self.bech32_prefix@,
    {
        ChainInfo {
            chain_id: self.chain_id.clone(),
            denom: self.denom.clone(),
            bech32_prefix: self.bech32_prefix.clone(),
        }
    }
}

} // verus!
