//! Errors of the orchestrator.

use crate::client::error::ClientError;
use vstd::prelude::*;

verus! {

/// Why a lookup in the contract map fails.
#[derive(Clone, Copy, Debug, PartialEq, Eq, Structural)]
pub enum LookupFailure {
    /// No code id is known under the name.
    NotStored,
    /// The contract is stored, but no address is known.
    NotDeployed,
}

/// Why a lookup in the contract map failed, and for which contract.
#[derive(Debug, PartialEq, Eq)]
pub enum ContractMapError {
    /// No code id is known under the name: the contract has to be stored first.
    NotStored { name: String },
    /// The contract is stored, but no address is known: it has to be
    /// instantiated first.
    NotDeployed { name: String },
}

impl ContractMapError {
    /// Why the lookup failed.
    pub open spec fn failure(self) -> LookupFailure {
        match self {
            ContractMapError::NotStored { .. } => LookupFailure::NotStored,
            ContractMapError::NotDeployed { .. } => LookupFailure::NotDeployed,
        }
    }

    /// The name that was looked up.
    pub open spec fn contract(self) -> Seq<char> {
        match self {
            ContractMapError::NotStored { name } => name@,
            ContractMapError::NotDeployed { name } => name@,
        }
    }
}

/// Why storing a contract failed.
#[derive(Debug, PartialEq, Eq)]
pub enum StoreError {
    /// The directory of the wasm files cannot be read.
    WasmDirRead { message: String },
    /// A wasm file cannot be read.
    WasmFileRead { message: String },
    /// The name of a wasm file is malformed.
    InvalidWasmFileName,
    /// The chain client failed.
    ClientError(ClientError),
    /// Reading failed otherwise.
    IOError { message: String },
}

impl StoreError {
    /// The error of a directory that cannot be read.
    pub fn wasmdir(message: String) -> (e: StoreError)
        ensures
            e == (StoreError::WasmDirRead { message }),
    {
        StoreError::WasmDirRead { message }
    }

    /// The error of a file that cannot be read.
    pub fn wasmfile(message: String) -> (e: StoreError)
        ensures
            e == (StoreError::WasmFileRead { message }),
    {
        StoreError::WasmFileRead { message }
    }
}

/// Why an operation on a contract failed.
#[derive(Debug, PartialEq, Eq)]
pub enum ProcessError {
    /// The message of the operation cannot be written as JSON.
    JsonSerialize { message: String },
    /// The contract is not in the state that the operation needs.
    ContractMapError(ContractMapError),
    /// The chain client failed.
    ClientError(ClientError),
    /// Reading failed.
    IOError { message: String },
}

impl ProcessError {
    /// The error of a message that cannot be written as JSON.
    pub fn json(message: String) -> (e: ProcessError)
        ensures
            e == (ProcessError::JsonSerialize { message }),
    {
        ProcessError::JsonSerialize { message }
    }
}

/// Why building the contracts failed.
#[derive(Debug, PartialEq, Eq)]
pub enum OptimizeError {
    Optimize { message: String },
}

/// Why waiting for blocks failed.
#[derive(Debug, PartialEq, Eq)]
pub enum PollBlockError {
    /// The time allowed for the wait ran out.
    Timeout,
    /// The chain client failed.
    ClientError(ClientError),
}

} // verus!
