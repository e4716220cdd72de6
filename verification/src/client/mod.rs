pub mod chain_res;
pub mod cosmos;
pub mod cosmwasm;
pub mod error;
pub mod poll;
pub mod sdk;
