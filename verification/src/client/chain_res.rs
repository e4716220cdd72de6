//! What the chain answers: result codes, events, and the responses of the
//! contract operations.

use vstd::prelude::*;

verus! {

/// The result code of a chain interaction: success, or the nonzero code of
/// an application error.
#[derive(Clone, Copy, Debug, PartialEq, Eq, Structural)]
pub enum Code {
    Success,
    Error(u32),
}

impl Code {
    /// The code with the given number: zero is success.
    pub fn from_value(value: u32) -> (c: Code)
        ensures
            c == (if value == 0 {
                Code::Success
            } else {
                Code::Error(value)
            }),
    {
        if value == 0 {
            Code::Success
        } else {
            Code::Error(value)
        }
    }

    /// The number of the code: zero for success.
    pub fn value(&self) -> (v: u32)
        ensures
            v == match *self {
                Code::Success => 0,
                Code::Error(n) => n,
            },
    {
        match self {
            Code::Success => 0,
            Code::Error(n) => *n,
        }
    }

    /// Whether the code is success.
    pub fn is_ok(&self) -> (b: bool)
        ensures
            b == (*self == Code::Success),
    {
        match self {
            Code::Success => true,
            Code::Error(_) => false,
        }
    }

    /// Whether the code is an error.
    pub fn is_err(&self) -> (b: bool)
        ensures
            b == (*self != Code::Success),
    {
        !self.is_ok()
    }
}

impl Default for Code {
    fn default() -> (c: Code)
        ensures
            c == Code::Success,
    {
        Code::Success
    }
}

/// One key/value attribute of an event.
#[derive(Clone, Debug, PartialEq, Eq)]
pub struct Tag {
    pub key: String,
    pub value: String,
}

/// An event that a committed transaction emitted.
#[derive(Clone, Debug, PartialEq, Eq)]
pub struct Event {
    pub type_str: String,
    pub attributes: Vec<Tag>,
}

/// The outcome of one phase of a transaction: its admission to the mempool
/// or its delivery in a block.
#[derive(Clone, Debug, PartialEq, Eq)]
pub struct TxResult {
    pub code: Code,
    pub data: Option<Vec<u8>>,
    pub log: String,
    pub gas_wanted: u64,
    pub gas_used: u64,
    pub events: Vec<Event>,
}

/// The answer to a broadcast that waited for the commit.
#[derive(Clone, Debug, PartialEq, Eq)]
pub struct TxCommitResponse {
    pub check_tx: TxResult,
    pub deliver_tx: TxResult,
    pub hash: String,
    pub height: u64,
}

/// The answer to a query of the chain's state.
#[derive(Clone, Debug, PartialEq, Eq)]
pub struct AbciQuery {
    pub code: Code,
    pub value: Vec<u8>,
    pub log: String,
}

/// A snapshot of the outcome of one chain interaction.
#[derive(Clone, Debug, PartialEq, Eq)]
pub struct ChainResponse {
    pub code: Code,
    pub data: Option<Vec<u8>>,
    pub log: String,
    pub gas_wanted: u64,
    pub gas_used: u64,
}

/// Why the data of a response cannot be read.
#[derive(Debug, PartialEq, Eq)]
pub enum DeserializeError {
    /// The response carries no data.
    EmptyResponse,
    /// The data is not what was expected.
    Serde { message: String },
}

impl Default for ChainResponse {
    fn default() -> (r: ChainResponse)
        ensures
            r.code == Code::Success,
            r.data is None,
            r.log@ == Seq::<char>::empty(),
            r.gas_wanted == 0,
            r.gas_used == 0,
    {
        ChainResponse { code: Code::Success, data: None, log: String::new(), gas_wanted: 0, gas_used: 0 }
    }
}

impl ChainResponse {
    /// The response of one phase of a transaction, without its events.
    pub fn from_tx_result(res: TxResult) -> (r: ChainResponse)
        ensures
            r.code == res.code,
            r.data == res.data,
            r.log == res.log,
            r.gas_wanted == res.gas_wanted,
            r.gas_used == res.gas_used,
    {
        ChainResponse {
            code: res.code,
            data: res.data,
            log: res.log,
            gas_wanted: res.gas_wanted,
            gas_used: res.gas_used,
        }
    }

    /// The response of a state query; a query uses no gas.
    pub fn from_abci_query(res: AbciQuery) -> (r: ChainResponse)
        ensures
            r.code == res.code,
            r.data == Some(res.value),
            r.log == res.log,
            r.gas_wanted == 0,
            r.gas_used == 0,
    {
        ChainResponse {
            code: res.code,
            data: Some(res.value),
            log: res.log,
            gas_wanted: 0,
            gas_used: 0,
        }
    }

    /// The response of a smart query that the contract answered with `data`.
    pub fn from_contract_state(data: Vec<u8>) -> (r: ChainResponse)
        ensures
            r.code == Code::Success,
            r.data == Some(data),
            r.log@ == Seq::<char>::empty(),
            r.gas_wanted == 0,
            r.gas_used == 0,
    {
        ChainResponse {
            code: Code::Success,
            data: Some(data),
            log: String::new(),
            gas_wanted: 0,
            gas_used: 0,
        }
    }

    /// The bytes that the response carries; `EmptyResponse` where it carries
    /// none.
    pub fn data(&self) -> (r: Result<&Vec<u8>, DeserializeError>)
        ensures
            match r {
                Ok(bytes) => self.data == Some(*bytes),
                Err(e) => self.data is None && e == DeserializeError::EmptyResponse,
            },
    {
        match &self.data {
            Some(bytes) => Ok(bytes),
            None => Err(DeserializeError::EmptyResponse),
        }
    }
}

/// The response to storing a contract's code.
#[derive(Clone, Debug, PartialEq, Eq)]
pub struct StoreCodeResponse {
    pub code_id: u64,
    pub res: ChainResponse,
    pub tx_hash: String,
    pub height: u64,
}

/// The response to instantiating a contract.
#[derive(Clone, Debug, PartialEq, Eq)]
pub struct InstantiateResponse {
    pub address: String,
    pub res: ChainResponse,
    pub tx_hash: String,
    pub height: u64,
}

/// The response to executing a contract.
#[derive(Clone, Debug, PartialEq, Eq)]
pub struct ExecResponse {
    pub res: ChainResponse,
    pub tx_hash: String,
    pub height: u64,
}

/// The response to querying a contract.
#[derive(Clone, Debug, PartialEq, Eq)]
pub struct QueryResponse {
    pub res: ChainResponse,
}

/// The response to migrating a contract.
#[derive(Clone, Debug, PartialEq, Eq)]
pub struct MigrateResponse {
    pub res: ChainResponse,
    pub tx_hash: String,
    pub height: u64,
}

impl StoreCodeResponse {
    /// The bytes that the chain returned.
    pub fn data(&self) -> (r: Result<&Vec<u8>, DeserializeError>)
        ensures
            match r {
                Ok(bytes) => self.res.data == Some(*bytes),
                Err(e) => self.res.data is None && e == DeserializeError::EmptyResponse,
            },
    {
        self.res.data()
    }
}

impl InstantiateResponse {
    /// The bytes that the chain returned.
    pub fn data(&self) -> (r: Result<&Vec<u8>, DeserializeError>)
        ensures
            match r {
                Ok(bytes) => self.res.data == Some(*bytes),
                Err(e) => self.res.data is None && e == DeserializeError::EmptyResponse,
            },
    {
        self.res.data()
    }
}

impl ExecResponse {
    /// The bytes that the chain returned.
    pub fn data(&self) -> (r: Result<&Vec<u8>, DeserializeError>)
        ensures
            match r {
                Ok(bytes) => self.res.data == Some(*bytes),
                Err(e) => self.res.data is None && e == DeserializeError::EmptyResponse,
            },
    {
        self.res.data()
    }
}

impl QueryResponse {
    /// The bytes that the contract answered with.
    pub fn data(&self) -> (r: Result<&Vec<u8>, DeserializeError>)
        ensures
            match r {
                Ok(bytes) => self.res.data == Some(*bytes),
                Err(e) => self.res.data is None && e == DeserializeError::EmptyResponse,
            },
    {
        self.res.data()
    }
}

impl MigrateResponse {
    /// The bytes that the chain returned.
    pub fn data(&self) -> (r: Result<&Vec<u8>, DeserializeError>)
        ensures
            match r {
                Ok(bytes) => self.res.data == Some(*bytes),
                Err(e) => self.res.data is None && e == DeserializeError::EmptyResponse,
            },
    {
        self.res.data()
    }
}

} // verus!
