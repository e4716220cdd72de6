//! The CosmWasm operations: the message that each one sends, and the
//! response that is made of the chain's answer.

use super::chain_res::{
    AbciQuery, ChainResponse, Code, Event, ExecResponse, InstantiateResponse, MigrateResponse,
    QueryResponse, StoreCodeResponse, TxCommitResponse,
};
use super::cosmos::{
    find_attribute, find_event, is_first_attribute, is_first_event, AbciRequest, AnyMsg,
};
use super::error::ClientError;
use super::sdk::{
    account_id_text, account_id_valid, coins_text, contract_query_bytes, decode_contract_state,
    decoded_contract_state, denom_text, denom_valid, encode_contract_query, execute_any,
    execute_bytes, execute_url, ids_text, instantiate_any, instantiate_bytes, instantiate_url,
    migrate_any, migrate_bytes, migrate_url, parse_account_id, parse_denom, parsed_account_id,
    report_text, store_code_any, store_code_bytes, store_code_url,
};
use crate::config::cfg::{ChainCfg, Coin};
use crate::config::key::{has_account, key_address, to_account, PrivateKey};
use crate::util::num::{parse_u64, parsed_u64};
use cosmrs::{AccountId, Denom, ErrorReport};
use vstd::prelude::*;

verus! {

/// Who may instantiate a stored code.
#[derive(Clone, Copy, Debug, PartialEq, Eq, Structural)]
pub enum AccessType {
    Unspecified,
    Nobody,
    Everybody,
    AnyOfAddresses,
}

/// The instantiate permission of a stored code.
#[derive(Clone, Debug, PartialEq, Eq)]
pub struct AccessConfig {
    pub permission: AccessType,
    pub addresses: Vec<String>,
}

/// Whether each of the addresses is well-formed.
pub open spec fn addresses_valid(addresses: Seq<String>) -> bool {
    forall|i: int| 0 <= i < addresses.len() ==> account_id_valid((#[trigger] addresses[i])@)
}

/// Whether the permissions, if any, name well-formed addresses only.
pub open spec fn perms_valid(perms: Option<AccessConfig>) -> bool {
    perms matches Some(config) ==> addresses_valid(config.addresses@)
}

/// Whether the admin address, if any, is well-formed.
pub open spec fn admin_valid(admin: Option<String>) -> bool {
    admin matches Some(address) ==> account_id_valid(address@)
}

/// Whether `i` is the place of the first coin with a malformed denomination.
pub open spec fn is_first_bad_denom(funds: Seq<Coin>, i: int) -> bool {
    &&& 0 <= i < funds.len()
    &&& !denom_valid(funds[i].denom@)
    &&& forall|j: int| 0 <= j < i ==> denom_valid((#[trigger] funds[j]).denom@)
}

/// Whether each of the coins has a well-formed denomination.
pub open spec fn funds_valid(funds: Seq<Coin>) -> bool {
    forall|i: int| 0 <= i < funds.len() ==> denom_valid((#[trigger] funds[i]).denom@)
}

/// The label that every instantiated contract gets.
pub open spec fn contract_label() -> Seq<char> {
    "cosm-orc"@
}

/// The path of the smart query of a contract.
pub open spec fn contract_query_path() -> Seq<char> {
    "/cosmwasm.wasm.v1.Query/SmartContractState"@
}

/// The value of the first attribute with key `key` of the first event of
/// type `type_str`; `None` where there is no such event, or it has no such
/// attribute.
pub open spec fn first_event_attribute(events: Seq<Event>, type_str: Seq<char>, key: Seq<char>)
    -> Option<Seq<char>> {
    if exists|i: int| is_first_event(events, type_str, i) {
        let i = choose|i: int| is_first_event(events, type_str, i);
        let attributes = events[i].attributes@;
        if exists|j: int| is_first_attribute(attributes, key, j) {
            Some(attributes[choose|j: int| is_first_attribute(attributes, key, j)].value@)
        } else {
            None
        }
    } else {
        None
    }
}

/// The code id that the events of a store transaction report: the
/// attribute `code_id` of the event `store_code`, read as a number.
pub open spec fn stored_code_id(events: Seq<Event>) -> Option<u64> {
    match first_event_attribute(events, "store_code"@, "code_id"@) {
        Some(value) => parsed_u64(value),
        None => None,
    }
}

/// The address that the events of an instantiate transaction report: the
/// attribute `_contract_address` of the event `instantiate`.
pub open spec fn instantiated_address(events: Seq<Event>) -> Option<Seq<char>> {
    first_event_attribute(events, "instantiate"@, "_contract_address"@)
}

/// The response of the delivery of a committed transaction.
pub open spec fn delivered(tx_res: TxCommitResponse) -> ChainResponse {
    ChainResponse {
        code: tx_res.deliver_tx.code,
        data: tx_res.deliver_tx.data,
        log: tx_res.deliver_tx.log,
        gas_wanted: tx_res.deliver_tx.gas_wanted,
        gas_used: tx_res.deliver_tx.gas_used,
    }
}

/// The first event of a type is at one place only.
pub proof fn lemma_first_event_unique(events: Seq<Event>, type_str: Seq<char>, i: int, j: int)
    requires
        is_first_event(events, type_str, i),
        is_first_event(events, type_str, j),
    ensures
        i == j,
{
    if i < j {
        assert(events[i].type_str@ != type_str);
    } else if j < i {
        assert(events[j].type_str@ != type_str);
    }
}

/// Finds the value of the attribute `key` of the first event of type
/// `type_str` among the events of the delivered transaction.
pub fn event_attribute<'a>(tx_res: &'a TxCommitResponse, type_str: &str, key: &str) -> (r: Option<
    &'a String,
>)
    ensures
        match r {
            Some(value) => first_event_attribute(tx_res.deliver_tx.events@, type_str@, key@)
                == Some(value@),
            None => first_event_attribute(tx_res.deliver_tx.events@, type_str@, key@) is None,
        },
{
    let ghost events = tx_res.deliver_tx.events@;
    match find_event(tx_res, type_str) {
        Some(event) => {
            proof {
                let i = choose|i: int|
                    is_first_event(events, type_str@, i) && *event == events[i];
                let i2 = choose|i: int| is_first_event(events, type_str@, i);
                lemma_first_event_unique(events, type_str@, i, i2);
            }
            match find_attribute(event, key) {
                Some(value) => {
                    proof {
                        let attributes = event.attributes@;
                        let j = choose|j: int|
                            is_first_attribute(attributes, key@, j) && *value
                                == attributes[j].value;
                        let j2 = choose|j: int| is_first_attribute(attributes, key@, j);
                        if j < j2 {
                            assert(attributes[j].key@ != key@);
                        } else if j2 < j {
                            assert(attributes[j2].key@ != key@);
                        }
                    }
                    Some(value)
                },
                None => {
                    assert forall|j: int| !is_first_attribute(event.attributes@, key@, j) by {
                        if 0 <= j < event.attributes@.len() {
                            assert(event.attributes@[j].key@ != key@);
                        }
                    }
                    None
                },
            }
        },
        None => {
            assert forall|i: int| !is_first_event(events, type_str@, i) by {
                if 0 <= i < events.len() {
                    assert(events[i].type_str@ != type_str@);
                }
            }
            None
        },
    }
}

/// Coins as plain values: the name of the denomination, and the amount.
pub open spec fn funds_text(funds: Seq<Coin>) -> Seq<(Seq<char>, u64)> {
    funds.map_values(|coin: Coin| (coin.denom@, coin.amount))
}

/// The addresses as the account ids parsed from them hold them.
pub open spec fn addresses_text(addresses: Seq<String>) -> Seq<Seq<char>> {
    addresses.map_values(|address: String| parsed_account_id(address@)->0)
}

/// The instantiate permissions as plain values.
pub open spec fn perms_text(perms: Option<AccessConfig>) -> Option<(AccessType, Seq<Seq<char>>)> {
    match perms {
        Some(config) => Some((config.permission, addresses_text(config.addresses@))),
        None => None,
    }
}

/// The admin address as the account id parsed from it holds it.
pub open spec fn admin_text(admin: Option<String>) -> Option<Seq<char>> {
    match admin {
        Some(address) => parsed_account_id(address@),
        None => None,
    }
}

/// Parses the denominations of the coins. Fails with `Denom` and the name
/// of the first malformed denomination.
fn parse_funds(funds: &Vec<Coin>) -> (r: Result<Vec<(Denom, u64)>, ClientError>)
    ensures
        match r {
            Ok(coins) => funds_valid(funds@) && coins_text(coins@) == funds_text(funds@),
            Err(ClientError::Denom { name }) => exists|i: int|
                is_first_bad_denom(funds@, i) && name@ == funds@[i].denom@,
            Err(_) => false,
        },
{
    let mut coins: Vec<(Denom, u64)> = Vec::new();
    let mut i: usize = 0;
    while i < funds.len()
        invariant
            0 <= i <= funds@.len(),
            coins@.len() == i,
            forall|j: int| 0 <= j < i ==> denom_valid((#[trigger] funds@[j]).denom@),
            forall|j: int|
                0 <= j < i ==> denom_text((#[trigger] coins@[j]).0) == funds@[j].denom@
                    && coins@[j].1 == funds@[j].amount,
        decreases funds@.len() - i,
    {
        match parse_denom(funds[i].denom.as_str()) {
            Ok(denom) => {
                coins.push((denom, funds[i].amount));
            },
            Err(_) => {
                assert(is_first_bad_denom(funds@, i as int));
                return Err(ClientError::Denom { name: funds[i].denom.clone() });
            },
        }
        i += 1;
    }
    assert(coins_text(coins@) =~= funds_text(funds@));
    Ok(coins)
}

/// Parses the addresses. Fails with the cause where one of them is
/// malformed.
fn parse_addresses(addresses: &Vec<String>) -> (r: Result<Vec<AccountId>, ErrorReport>)
    ensures
        r is Ok <==> addresses_valid(addresses@),
        r matches Ok(ids) ==> ids_text(ids@) == addresses_text(addresses@),
{
    let mut ids: Vec<AccountId> = Vec::new();
    let mut i: usize = 0;
    while i < addresses.len()
        invariant
            0 <= i <= addresses@.len(),
            ids@.len() == i,
            forall|j: int| 0 <= j < i ==> account_id_valid((#[trigger] addresses@[j])@),
            forall|j: int|
                0 <= j < i ==> parsed_account_id(addresses@[j]@) == Some(
                    account_id_text(#[trigger] ids@[j]),
                ),
        decreases addresses@.len() - i,
    {
        match parse_account_id(addresses[i].as_str()) {
            Ok(id) => {
                ids.push(id);
            },
            Err(e) => {
                return Err(e);
            },
        }
        i += 1;
    }
    assert(ids_text(ids@) =~= addresses_text(addresses@));
    Ok(ids)
}

/// Builds the messages of the CosmWasm operations for one chain, and reads
/// the responses.
#[derive(Clone, Debug)]
pub struct CosmWasmClient {
    pub cfg: ChainCfg,
}

impl CosmWasmClient {
    /// The client for the chain with the given configuration.
    pub fn new(cfg: ChainCfg) -> (client: Self)
        ensures
            client.cfg == cfg,
    {
        CosmWasmClient { cfg }
    }

    /// The message that stores the code `payload`, sent by the account of
    /// `key`, with its bytes.
    ///
    /// Fails with `Crypto` exactly where the key has no account under the
    /// chain's address prefix; else with `InstantiatePerms` exactly where
    /// the permissions name a malformed address. There is no other failure.
    pub fn store(
        &self,
        payload: Vec<u8>,
        key: &PrivateKey,
        instantiate_perms: Option<AccessConfig>,
    ) -> (r: Result<AnyMsg, ClientError>)
        ensures
            match r {
                Ok(msg) => has_account(key.bytes@, self.cfg.prefix@) && perms_valid(
                    instantiate_perms,
                ) && msg.type_url@ == store_code_url() && msg.value@ == store_code_bytes(
                    key_address(key.bytes@, self.cfg.prefix@)->0,
                    payload@,
                    perms_text(instantiate_perms),
                ),
                Err(ClientError::Crypto { .. }) => !has_account(key.bytes@, self.cfg.prefix@),
                Err(ClientError::InstantiatePerms { .. }) => has_account(
                    key.bytes@,
                    self.cfg.prefix@,
                ) && !perms_valid(instantiate_perms),
                Err(_) => false,
            },
    {
        let sender = to_account(key, self.cfg.prefix.as_str())?;
        let permission = match &instantiate_perms {
            Some(config) => match parse_addresses(&config.addresses) {
                Ok(ids) => Some((config.permission, ids)),
                Err(e) => {
                    return Err(ClientError::InstantiatePerms { message: report_text(&e) });
                },
            },
            None => None,
        };
        match store_code_any(sender, payload, permission) {
            Ok(msg) => Ok(msg),
            Err(e) => Err(ClientError::proto_encoding(e)),
        }
    }

    /// The response to a committed store transaction; `None` where its
    /// events do not report a code id.
    pub fn store_response(tx_res: TxCommitResponse) -> (r: Option<StoreCodeResponse>)
        ensures
            match r {
                Some(res) => stored_code_id(tx_res.deliver_tx.events@) == Some(res.code_id)
                    && res.res == delivered(tx_res) && res.tx_hash == tx_res.hash && res.height
                    == tx_res.height,
                None => stored_code_id(tx_res.deliver_tx.events@) is None,
            },
    {
        let code_id = match event_attribute(&tx_res, "store_code", "code_id") {
            Some(value) => match parse_u64(value.as_str()) {
                Some(code_id) => code_id,
                None => {
                    return None;
                },
            },
            None => {
                return None;
            },
        };
        Some(
            StoreCodeResponse {
                code_id,
                res: ChainResponse::from_tx_result(tx_res.deliver_tx),
                tx_hash: tx_res.hash,
                height: tx_res.height,
            },
        )
    }

    /// The message that instantiates the code `code_id` with `payload`,
    /// under the label `cosm-orc`, sent by the account of `key`, with its
    /// bytes.
    ///
    /// Fails with `Crypto` exactly where the key has no account under the
    /// chain's address prefix; else with `Denom` and the first malformed
    /// denomination of the funds; else with `AdminAddress` exactly where the
    /// admin address is malformed. There is no other failure.
    pub fn instantiate(
        &self,
        code_id: u64,
        payload: Vec<u8>,
        key: &PrivateKey,
        admin: Option<String>,
        funds: Vec<Coin>,
    ) -> (r: Result<AnyMsg, ClientError>)
        ensures
            match r {
                Ok(msg) => has_account(key.bytes@, self.cfg.prefix@) && funds_valid(funds@)
                    && admin_valid(admin) && msg.type_url@ == instantiate_url() && msg.value@
                    == instantiate_bytes(
                    key_address(key.bytes@, self.cfg.prefix@)->0,
                    admin_text(admin),
                    code_id,
                    contract_label(),
                    payload@,
                    funds_text(funds@),
                ),
                Err(ClientError::Crypto { .. }) => !has_account(key.bytes@, self.cfg.prefix@),
                Err(ClientError::Denom { name }) => has_account(key.bytes@, self.cfg.prefix@)
                    && exists|i: int| is_first_bad_denom(funds@, i) && name@ == funds@[i].denom@,
                Err(ClientError::AdminAddress) => has_account(key.bytes@, self.cfg.prefix@)
                    && funds_valid(funds@) && !admin_valid(admin),
                Err(_) => false,
            },
    {
        let sender = to_account(key, self.cfg.prefix.as_str())?;
        let coins = parse_funds(&funds)?;
        let admin_id = match &admin {
            Some(address) => match parse_account_id(address.as_str()) {
                Ok(id) => Some(id),
                Err(_) => {
                    return Err(ClientError::AdminAddress);
                },
            },
            None => None,
        };
        proof {
            reveal_strlit("cosm-orc");
        }
        match instantiate_any(
            sender,
            admin_id,
            code_id,
            String::from_str("cosm-orc"),
            payload,
            coins,
        ) {
            Ok(msg) => Ok(msg),
            Err(e) => Err(ClientError::proto_encoding(e)),
        }
    }

    /// The response to a committed instantiate transaction; `None` where
    /// its events do not report the address of the contract.
    pub fn instantiate_response(tx_res: TxCommitResponse) -> (r: Option<InstantiateResponse>)
        ensures
            match r {
                Some(res) => instantiated_address(tx_res.deliver_tx.events@) == Some(
                    res.address@,
                ) && res.res == delivered(tx_res) && res.tx_hash == tx_res.hash && res.height
                    == tx_res.height,
                None => instantiated_address(tx_res.deliver_tx.events@) is None,
            },
    {
        let address = match event_attribute(&tx_res, "instantiate", "_contract_address") {
            Some(value) => value.clone(),
            None => {
                return None;
            },
        };
        Some(
            InstantiateResponse {
                address,
                res: ChainResponse::from_tx_result(tx_res.deliver_tx),
                tx_hash: tx_res.hash,
                height: tx_res.height,
            },
        )
    }

    /// The message that executes `payload` on the contract at `address`,
    /// sent by the account of `key`, with its bytes.
    ///
    /// Fails with `Crypto` exactly where the key has no account under the
    /// chain's address prefix; else with `Denom` and the first malformed
    /// denomination of the funds; else with `AccountId` exactly where the
    /// address is malformed. There is no other failure.
    pub fn execute(&self, address: String, payload: Vec<u8>, key: &PrivateKey, funds: Vec<Coin>)
        -> (r: Result<AnyMsg, ClientError>)
        ensures
            match r {
                Ok(msg) => has_account(key.bytes@, self.cfg.prefix@) && funds_valid(funds@)
                    && account_id_valid(address@) && msg.type_url@ == execute_url() && msg.value@
                    == execute_bytes(
                    key_address(key.bytes@, self.cfg.prefix@)->0,
                    parsed_account_id(address@)->0,
                    payload@,
                    funds_text(funds@),
                ),
                Err(ClientError::Crypto { .. }) => !has_account(key.bytes@, self.cfg.prefix@),
                Err(ClientError::Denom { name }) => has_account(key.bytes@, self.cfg.prefix@)
                    && exists|i: int| is_first_bad_denom(funds@, i) && name@ == funds@[i].denom@,
                Err(ClientError::AccountId { id }) => has_account(key.bytes@, self.cfg.prefix@)
                    && funds_valid(funds@) && !account_id_valid(address@) && id@ == address@,
                Err(_) => false,
            },
    {
        let sender = to_account(key, self.cfg.prefix.as_str())?;
        let coins = parse_funds(&funds)?;
        let contract = match parse_account_id(address.as_str()) {
            Ok(id) => id,
            Err(_) => {
                return Err(ClientError::AccountId { id: address });
            },
        };
        match execute_any(sender, contract, payload, coins) {
            Ok(msg) => Ok(msg),
            Err(e) => Err(ClientError::proto_encoding(e)),
        }
    }

    /// The response to a committed execute transaction.
    pub fn execute_response(tx_res: TxCommitResponse) -> (res: ExecResponse)
        ensures
            res.res == delivered(tx_res),
            res.tx_hash == tx_res.hash,
            res.height == tx_res.height,
    {
        ExecResponse {
            res: ChainResponse::from_tx_result(tx_res.deliver_tx),
            tx_hash: tx_res.hash,
            height: tx_res.height,
        }
    }

    /// The smart query `payload` of the contract at `address`. It never
    /// fails.
    pub fn query(&self, address: String, payload: Vec<u8>) -> (r: Result<AbciRequest, ClientError>)
        ensures
            r matches Ok(req) && req.path@ == contract_query_path() && req.data@
                == contract_query_bytes(address@, payload@),
    {
        match encode_contract_query(address.as_str(), &payload) {
            Ok(data) => Ok(
                AbciRequest {
                    path: String::from_str("/cosmwasm.wasm.v1.Query/SmartContractState"),
                    data,
                },
            ),
            Err(e) => Err(ClientError::prost_proto_en(e)),
        }
    }

    /// The response to a smart query that the chain accepted: the data that
    /// the contract answered with. Fails with `ProtoDecoding` where the
    /// answer cannot be decoded.
    pub fn query_response(res: &AbciQuery) -> (r: Result<QueryResponse, ClientError>)
        ensures
            match r {
                Ok(response) => response.res.data is Some && decoded_contract_state(res.value@)
                    == Some(response.res.data->0@) && response.res.code == Code::Success
                    && response.res.log@ == Seq::<char>::empty() && response.res.gas_used == 0
                    && response.res.gas_wanted == 0,
                Err(e) => decoded_contract_state(res.value@) is None && e is ProtoDecoding,
            },
    {
        match decode_contract_state(&res.value) {
            Ok(data) => Ok(QueryResponse { res: ChainResponse::from_contract_state(data) }),
            Err(e) => Err(ClientError::prost_proto_de(e)),
        }
    }

    /// The message that migrates the contract at `address` to the code
    /// `new_code_id` with `payload`, sent by the account of `key`, with its
    /// bytes.
    ///
    /// Fails with `Crypto` exactly where the key has no account under the
    /// chain's address prefix; else with `AccountId` exactly where the
    /// address is malformed. There is no other failure.
    pub fn migrate(&self, address: String, new_code_id: u64, payload: Vec<u8>, key: &PrivateKey)
        -> (r: Result<AnyMsg, ClientError>)
        ensures
            match r {
                Ok(msg) => has_account(key.bytes@, self.cfg.prefix@) && account_id_valid(
                    address@,
                ) && msg.type_url@ == migrate_url() && msg.value@ == migrate_bytes(
                    key_address(key.bytes@, self.cfg.prefix@)->0,
                    parsed_account_id(address@)->0,
                    new_code_id,
                    payload@,
                ),
                Err(ClientError::Crypto { .. }) => !has_account(key.bytes@, self.cfg.prefix@),
                Err(ClientError::AccountId { id }) => has_account(key.bytes@, self.cfg.prefix@)
                    && !account_id_valid(address@) && id@ == address@,
                Err(_) => false,
            },
    {
        let sender = to_account(key, self.cfg.prefix.as_str())?;
        let contract = match parse_account_id(address.as_str()) {
            Ok(id) => id,
            Err(_) => {
                return Err(ClientError::AccountId { id: address });
            },
        };
        match migrate_any(sender, contract, new_code_id, payload) {
            Ok(msg) => Ok(msg),
            Err(e) => Err(ClientError::proto_encoding(e)),
        }
    }

    /// The response to a committed migrate transaction.
    pub fn migrate_response(tx_res: TxCommitResponse) -> (res: MigrateResponse)
        ensures
            res.res == delivered(tx_res),
            res.tx_hash == tx_res.hash,
            res.height == tx_res.height,
    {
        MigrateResponse {
            res: ChainResponse::from_tx_result(tx_res.deliver_tx),
            tx_hash: tx_res.hash,
            height: tx_res.height,
        }
    }
}

} // verus!
