//! Errors of the configuration.

use vstd::prelude::*;

verus! {

/// Why no configuration could be had.
#[derive(Debug, PartialEq, Eq)]
pub enum ConfigError {
    /// The configuration file cannot be read as a configuration.
    Config { message: String },
    /// The chain registry cannot be reached.
    ChainRegistryAPI { message: String },
    /// The chain registry knows no chain with this id.
    ChainID { chain_id: String },
    /// The chain registry lists no fee token for the chain.
    MissingFee { chain_id: String },
    /// The chain registry lists no RPC endpoint for the chain.
    MissingRPC { chain_id: String },
    /// The chain registry lists no gRPC endpoint for the chain.
    MissingGRPC { chain_id: String },
    /// An endpoint is no valid URL.
    InvalidURL { message: String },
}

} // verus!
