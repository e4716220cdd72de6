//! The configuration of the command line profiler.

use vstd::prelude::*;

verus! {

/// The chain to profile on, and the binary of its command line client.
#[derive(Clone, Debug, PartialEq, Eq)]
pub struct ChainConfig {
    pub binary: String,
    pub denom: String,
    pub chain_id: String,
    pub rpc_endpoint: String,
}

/// The configuration of the command line profiler.
#[derive(Clone, Debug, PartialEq, Eq)]
pub struct Config {
    pub chain_cfg: ChainConfig,
    /// The flags that every transaction command gets.
    pub tx_flags: Vec<String>,
    /// The code ids of the contracts that are stored already, by name.
    pub code_ids: Vec<(String, u64)>,
    /// The name of the key that signs the transactions.
    pub key_name: String,
    /// The path to the optimized wasm files.
    pub wasm_dir: String,
}

} // verus!
