//! Orchestration of CosmWasm smart contracts on a Cosmos SDK chain, with
//! gas profiling of every state-changing operation.
//!
//! The library holds what is decided and computed, and never talks to a
//! chain itself. Where an operation needs a round trip to the chain, the
//! library says which one, and takes its answer:
//!
//! * `orchestrator`: the contract map, the gas profiler, and the
//!   orchestrator that keeps both up to date over the operations on
//!   contracts.
//! * `client`: the transaction pipeline from a message to a committed
//!   transaction, the CosmWasm messages and responses, and the wait for
//!   blocks.
//! * `config`: the configuration of a chain, and signing keys.
//! * `profiler`: gas profiling through the chain's command line client.
//! * `profilers`: the interface that every profiler offers.
//! * `util`: string maps, decimal numbers, and text helpers.

pub mod client;
pub mod config;
pub mod orchestrator;
pub mod profiler;
pub mod profilers;
pub mod util;
