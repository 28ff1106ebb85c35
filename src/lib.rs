//! Deployment registry and transaction builders for multi-chain
//! integration tests.
//!
//! The registry records what was deployed on each simulated chain (code ids,
//! contract addresses, tokenfactory denoms and singleton deployments). The
//! builders validate their parameters, resolve what they need from the
//! registry and produce a typed request for the submission gateway, which
//! runs outside this crate.

use vstd::prelude::*;

pub mod builders;
pub mod config;
pub mod error;
pub mod messages;
pub mod numeric;
pub mod registry;
pub mod valence;

verus! {

/// Chain id of the Neutron network.
pub const NEUTRON_CHAIN_ID: &'static str = "neutron-1";

/// Chain id of the Osmosis network.
pub const OSMOSIS_CHAIN_ID: &'static str = "osmosis-1";

/// Logical name of the auction contract.
pub const AUCTION_CONTRACT_NAME: &'static str = "auction";

/// Logical name of the auctions manager contract.
pub const AUCTIONS_MANAGER_CONTRACT_NAME: &'static str = "auctions_manager";

/// Logical name of the price oracle contract.
pub const PRICE_ORACLE_CONTRACT_NAME: &'static str = "price_oracle";

/// Logical name of the token registry contract.
pub const TOKEN_REGISTRY_CONTRACT_NAME: &'static str = "astroport_native_coin_registry";

/// Logical name of the pool factory contract.
pub const FACTORY_CONTRACT_NAME: &'static str = "astroport_factory";

} // verus!
