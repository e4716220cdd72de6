//! The configuration of the orchestrator.

use crate::orchestrator::deploy::DeployInfo;
use crate::util::decimal::Decimal;
use vstd::prelude::*;

verus! {

/// The parameters of a chain.
#[derive(Clone, Debug, PartialEq, Eq)]
pub struct ChainCfg {
    /// The denomination in which fees are paid.
    pub denom: String,
    /// The Bech32 prefix of the chain's addresses.
    pub prefix: String,
    pub chain_id: String,
    pub rpc_endpoint: String,
    pub grpc_endpoint: String,
    /// The price of one unit of gas, in `denom`.
    pub gas_prices: Decimal,
    /// The factor by which a simulated gas estimate is raised to give the
    /// gas limit of the real transaction.
    pub gas_adjustment: Decimal,
}

/// An amount of tokens of one denomination.
#[derive(Clone, Debug, PartialEq, Eq)]
pub struct Coin {
    pub denom: String,
    pub amount: u64,
}

/// The configuration of an orchestrator: the chain, and the contracts that
/// are stored or deployed on it already.
#[derive(Clone, Debug, PartialEq, Eq)]
pub struct Config {
    pub chain_cfg: ChainCfg,
    pub contract_deploy_info: Vec<(String, DeployInfo)>,
}

} // verus!
