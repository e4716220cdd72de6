//! The transaction pipeline: from a message to a committed transaction.
//!
//! A transaction passes through these stages:
//!
//! * built (`BuiltTx`): the message and the signer's account are known.
//! * fee resolved (`FeeResolvedTx`): the gas simulation has answered, the
//!   fee is computed.
//! * signed (`SignedTx`): the transaction is signed with its fee.
//! * broadcast: its bytes are with the chain.
//! * committed or failed: `commit_result` says which.
//!
//! Each stage is a type, and each step takes the stage before it, so the
//! steps cannot be taken out of order.
//!
//! The round trips to the chain are the caller's. `send_tx` and `tx_step`
//! run a transaction as a state machine: they say which round trip is next,
//! and take its answer.

use super::chain_res::{AbciQuery, ChainResponse, Code, Event, Tag, TxCommitResponse};
use super::error::ClientError;
use super::sdk::{
    account_request_bytes, auth_info, chain_id_valid, decode_account_response,
    decode_base_account, decoded_account_response, decoded_base_account, denom_valid,
    encode_account_request, fee_of, parse_chain_id, parse_denom, public_key, public_key_bytes,
    public_key_of, raw_bytes, sign, sign_doc, sign_doc_view, signed_tx, single_direct, tx_body,
    AuthView, BodyView, FeeView, SignDocView, SignerView,
};
use crate::config::cfg::ChainCfg;
use crate::config::key::PrivateKey;
use crate::util::decimal::{lemma_pow10_monotonic, pow10, DecimalView};
use cosmrs::tx::SignDoc;
use vstd::prelude::*;

verus! {

/// A protobuf message under its type URL.
#[derive(Clone, Debug, PartialEq, Eq)]
pub struct AnyMsg {
    pub type_url: String,
    pub value: Vec<u8>,
}

/// The state of an account on the chain. The sequence grows by one with each
/// committed transaction of the account.
#[derive(Clone, Debug, PartialEq, Eq)]
pub struct Account {
    pub address: String,
    pub account_number: u64,
    pub sequence: u64,
}

/// The fee of a transaction: an amount in one denomination, and the most gas
/// that the transaction may use.
#[derive(Clone, Debug, PartialEq, Eq)]
pub struct GasFee {
    pub denom: String,
    pub amount: u64,
    pub gas_limit: u64,
}

/// A query of the chain's state: the path of the query and its encoded
/// request.
#[derive(Clone, Debug, PartialEq, Eq)]
pub struct AbciRequest {
    pub path: String,
    pub data: Vec<u8>,
}

/// The path of the account query.
pub open spec fn account_query_path() -> Seq<char> {
    "/cosmos.auth.v1beta1.Query/Account"@
}

/// A number of the width of the machine's registers, capped at `u64::MAX`.
pub open spec fn capped(n: nat) -> u64 {
    if n <= u64::MAX {
        n as u64
    } else {
        u64::MAX
    }
}

/// The gas limit for a simulated gas use: the gas used times the gas
/// adjustment, rounded up.
pub open spec fn gas_limit_for(gas_used: u64, gas_adjustment: DecimalView) -> u64 {
    capped(gas_adjustment.ceil_mul(gas_used as nat))
}

/// The fee amount for a gas limit: the gas limit times the gas price,
/// rounded up.
pub open spec fn fee_amount_for(gas_limit: u64, gas_prices: DecimalView) -> u64 {
    capped(gas_prices.ceil_mul(gas_limit as nat))
}

/// What is made of the answer to a state query: an answer with a code other
/// than success is the chain's rejection.
pub open spec fn abci_query_outcome(res: AbciQuery) -> Result<AbciQuery, ClientError> {
    if res.code == Code::Success {
        Ok(res)
    } else {
        Err(
            ClientError::CosmosSdk {
                res: ChainResponse {
                    code: res.code,
                    data: Some(res.value),
                    log: res.log,
                    gas_wanted: 0,
                    gas_used: 0,
                },
            },
        )
    }
}

/// Checks the answer to a state query.
pub fn abci_query(res: AbciQuery) -> (r: Result<AbciQuery, ClientError>)
    ensures
        r == abci_query_outcome(res),
{
    if !res.code.is_ok() {
        return Err(ClientError::CosmosSdk { res: ChainResponse::from_abci_query(res) });
    }
    Ok(res)
}

/// The query for the account with the given address. It never fails.
pub fn account_request(account_id: &str) -> (r: Result<AbciRequest, ClientError>)
    ensures
        r matches Ok(req) && req.path@ == account_query_path() && req.data@
            == account_request_bytes(account_id@),
{
    match encode_account_request(account_id) {
        Ok(data) => Ok(
            AbciRequest { path: String::from_str("/cosmos.auth.v1beta1.Query/Account"), data },
        ),
        Err(e) => Err(ClientError::prost_proto_en(e)),
    }
}

/// The kind of failure in reading an account from an answer.
pub enum AccountFailure {
    /// The answer, or the account in it, cannot be decoded.
    Decoding,
    /// The answer holds no account.
    Missing,
}

/// What the value of an answer to an account query holds: the account's
/// address, number and sequence, or why none can be read.
pub open spec fn account_in(value: Seq<u8>) -> Result<(Seq<char>, u64, u64), AccountFailure> {
    match decoded_account_response(value) {
        None => Err(AccountFailure::Decoding),
        Some(None) => Err(AccountFailure::Missing),
        Some(Some(any)) => match decoded_base_account(any.1) {
            None => Err(AccountFailure::Decoding),
            Some(account) => Ok(account),
        },
    }
}

/// Reads the account from the answer to an account query.
///
/// Fails with `ProtoDecoding` where the answer or the account in it cannot
/// be decoded, and with `AccountId` where the answer holds no account.
pub fn account(res: &AbciQuery, account_id: &str) -> (r: Result<Account, ClientError>)
    ensures
        match r {
            Ok(a) => account_in(res.value@) == Ok::<_, AccountFailure>(
                (a.address@, a.account_number, a.sequence),
            ),
            Err(ClientError::ProtoDecoding { .. }) => account_in(res.value@) == Err::<
                (Seq<char>, u64, u64),
                _,
            >(AccountFailure::Decoding),
            Err(ClientError::AccountId { id }) => id@ == account_id@ && account_in(res.value@)
                == Err::<(Seq<char>, u64, u64), _>(AccountFailure::Missing),
            Err(_) => false,
        },
{
    let wrapped = match decode_account_response(&res.value) {
        Ok(wrapped) => wrapped,
        Err(e) => {
            return Err(ClientError::prost_proto_de(e));
        },
    };
    let any = match wrapped {
        Some(any) => any,
        None => {
            return Err(ClientError::AccountId { id: account_id.to_owned() });
        },
    };
    match decode_base_account(&any.value) {
        Ok(account) => Ok(account),
        Err(e) => Err(ClientError::prost_proto_de(e)),
    }
}

/// The fee for a transaction whose simulation used `gas_used`: the gas limit
/// is the gas used times the gas adjustment, the amount is the gas limit
/// times the gas price, both rounded up, in the fee denomination of the
/// chain.
pub fn gas_fee(gas_used: u64, cfg: &ChainCfg) -> (fee: GasFee)
    ensures
        fee.denom@ == cfg.denom@,
        fee.gas_limit == gas_limit_for(gas_used, cfg.gas_adjustment@),
        fee.amount == fee_amount_for(fee.gas_limit, cfg.gas_prices@),
{
    let gas_limit = cfg.gas_adjustment.ceil_mul(gas_used);
    let amount = cfg.gas_prices.ceil_mul(gas_limit);
    GasFee { denom: cfg.denom.clone(), amount, gas_limit }
}

/// A gas adjustment of one or more never gives a gas limit under the gas
/// that the simulation used.
pub proof fn lemma_gas_limit_covers_gas_used(gas_used: u64, gas_adjustment: DecimalView)
    requires
        gas_adjustment.units >= pow10(gas_adjustment.scale),
    ensures
        gas_limit_for(gas_used, gas_adjustment) >= gas_used,
{
    let unit = pow10(gas_adjustment.scale);
    let product = gas_used as nat * gas_adjustment.units;
    lemma_pow10_monotonic(0, gas_adjustment.scale);
    assert(product >= gas_used as nat * unit) by (nonlinear_arith)
        requires
            product == gas_used as nat * gas_adjustment.units,
            gas_adjustment.units >= unit,
    ;
    assert(product / unit >= gas_used as nat) by (nonlinear_arith)
        requires
            product >= gas_used as nat * unit,
            unit >= 1,
    ;
}

/// The error for a gas simulation that the chain refused with the given
/// status code and message.
pub fn simulation_error(code: u32, message: String) -> (e: ClientError)
    ensures
        e matches ClientError::CosmosSdk { res } && res.code == Code::Error(code) && res.log
            == message && res.data is None && res.gas_wanted == 0 && res.gas_used == 0,
{
    ClientError::CosmosSdk {
        res: ChainResponse {
            code: Code::Error(code),
            data: None,
            log: message,
            gas_wanted: 0,
            gas_used: 0,
        },
    }
}

/// The memo of every transaction.
pub open spec fn tx_memo() -> Seq<char> {
    "MEMO"@
}

/// A fee as plain values.
pub open spec fn fee_view_of(fee: GasFee) -> FeeView {
    FeeView { denom: fee.denom@, amount: fee.amount, gas_limit: fee.gas_limit }
}

/// The fee that the gas simulation is signed with: nothing, and a gas limit
/// of zero.
pub open spec fn zero_fee(denom: Seq<char>) -> FeeView {
    FeeView { denom, amount: 0, gas_limit: 0 }
}

/// What the document that is signed is made of: the one message, the memo
/// `MEMO` and no timeout height; the signer's public key and the sequence
/// of the account; the fee; the chain id and the number of the account.
pub open spec fn tx_doc(
    msg: AnyMsg,
    sequence: u64,
    account_number: u64,
    fee: FeeView,
    public_key: Seq<u8>,
    chain_id: Seq<char>,
) -> SignDocView {
    SignDocView {
        body: BodyView {
            type_url: msg.type_url@,
            value: msg.value@,
            memo: tx_memo(),
            timeout_height: 0,
        },
        auth: AuthView { signer: SignerView { public_key, sequence }, fee },
        chain_id,
        account_number,
    }
}

/// Whether `r` is what signing gives.
///
/// A malformed fee denomination gives `Denom`, else a malformed chain id
/// gives `ChainId`, else bytes that are no private key give `Crypto`. Else
/// the document of `tx_doc` is signed with the key: the result is the bytes
/// of the signed transaction, or `Crypto` where the key cannot sign.
pub open spec fn is_signing_outcome(
    r: Result<Vec<u8>, ClientError>,
    msg: AnyMsg,
    sequence: u64,
    account_number: u64,
    fee: FeeView,
    key: Seq<u8>,
    chain_id: Seq<char>,
) -> bool {
    if !denom_valid(fee.denom) {
        r matches Err(ClientError::Denom { name }) && name@ == fee.denom
    } else if !chain_id_valid(chain_id) {
        r matches Err(ClientError::ChainId { chain_id: id }) && id@ == chain_id
    } else {
        match public_key_of(key) {
            None => r matches Err(ClientError::Crypto { .. }),
            Some(public_key) => exists|doc: SignDoc| #[trigger]
                sign_doc_view(doc) == tx_doc(
                    msg,
                    sequence,
                    account_number,
                    fee,
                    public_key,
                    chain_id,
                ) && match signed_tx(doc, key) {
                    Some(bytes) => r matches Ok(signed) && signed@ == bytes,
                    None => r matches Err(ClientError::Crypto { .. }),
                },
        }
    }
}

/// Signs a transaction of one message by one signer in direct mode, and
/// returns its bytes. The memo is `MEMO`; there is no timeout height.
fn sign_tx(msg: &AnyMsg, account: &Account, fee: &GasFee, key: &PrivateKey, chain_id: &str) -> (r:
    Result<Vec<u8>, ClientError>)
    ensures
        is_signing_outcome(
            r,
            *msg,
            account.sequence,
            account.account_number,
            fee_view_of(*fee),
            key.bytes@,
            chain_id@,
        ),
{
    let denom = match parse_denom(fee.denom.as_str()) {
        Ok(denom) => denom,
        Err(_) => {
            return Err(ClientError::Denom { name: fee.denom.clone() });
        },
    };
    let id = match parse_chain_id(chain_id) {
        Ok(id) => id,
        Err(_) => {
            return Err(ClientError::ChainId { chain_id: chain_id.to_owned() });
        },
    };
    let public = match public_key(&key.bytes) {
        Ok(public) => public,
        Err(e) => {
            return Err(ClientError::crypto(e));
        },
    };
    let signer = single_direct(public, account.sequence);
    let auth = auth_info(signer, fee_of(denom, fee.amount, fee.gas_limit));
    proof {
        reveal_strlit("MEMO");
    }
    let body = tx_body(msg, "MEMO", 0);
    let doc = match sign_doc(&body, &auth, &id, account.account_number) {
        Ok(doc) => doc,
        Err(e) => {
            return Err(ClientError::proto_encoding(e));
        },
    };
    let ghost signed_doc = doc;
    assert(sign_doc_view(signed_doc) == tx_doc(
        *msg,
        account.sequence,
        account.account_number,
        fee_view_of(*fee),
        public_key_bytes(public),
        chain_id@,
    ));
    let raw = match sign(doc, &key.bytes) {
        Ok(raw) => raw,
        Err(e) => {
            return Err(ClientError::crypto(e));
        },
    };
    match raw_bytes(&raw) {
        Ok(bytes) => Ok(bytes),
        Err(e) => Err(ClientError::proto_encoding(e)),
    }
}

/// A transaction that is built: its message and the account that signs it.
#[derive(Debug)]
pub struct BuiltTx {
    pub msg: AnyMsg,
    pub account: Account,
}

/// A transaction whose fee is resolved.
#[derive(Debug)]
pub struct FeeResolvedTx {
    pub msg: AnyMsg,
    pub account: Account,
    pub fee: GasFee,
}

/// A signed transaction.
#[derive(Debug)]
pub struct SignedTx {
    pub account: Account,
    pub fee: GasFee,
    pub tx_bytes: Vec<u8>,
}

impl BuiltTx {
    /// Builds the transaction of one message, to be signed by the account.
    pub fn new(msg: AnyMsg, account: Account) -> (tx: BuiltTx)
        ensures
            tx.msg == msg,
            tx.account == account,
    {
        BuiltTx { msg, account }
    }

    /// The bytes to hand to the gas simulation: the transaction signed with
    /// the account's current sequence, a fee of zero and a gas limit of zero.
    pub fn simulation_tx(&self, key: &PrivateKey, cfg: &ChainCfg) -> (r: Result<
        Vec<u8>,
        ClientError,
    >)
        ensures
            is_signing_outcome(
                r,
                self.msg,
                self.account.sequence,
                self.account.account_number,
                zero_fee(cfg.denom@),
                key.bytes@,
                cfg.chain_id@,
            ),
    {
        let fee = GasFee { denom: cfg.denom.clone(), amount: 0, gas_limit: 0 };
        sign_tx(&self.msg, &self.account, &fee, key, cfg.chain_id.as_str())
    }

    /// Resolves the fee from the gas that the simulation used. The account,
    /// and so the sequence that the simulation ran with, stays.
    pub fn resolve_fee(self, gas_used: u64, cfg: &ChainCfg) -> (tx: FeeResolvedTx)
        ensures
            tx.msg == self.msg,
            tx.account == self.account,
            tx.fee.denom@ == cfg.denom@,
            tx.fee.gas_limit == gas_limit_for(gas_used, cfg.gas_adjustment@),
            tx.fee.amount == fee_amount_for(tx.fee.gas_limit, cfg.gas_prices@),
    {
        let fee = gas_fee(gas_used, cfg);
        FeeResolvedTx { msg: self.msg, account: self.account, fee }
    }
}

impl FeeResolvedTx {
    /// Signs the transaction with its fee and the account's sequence.
    pub fn sign(self, key: &PrivateKey, cfg: &ChainCfg) -> (r: Result<SignedTx, ClientError>)
        ensures
            match r {
                Ok(tx) => tx.account == self.account && tx.fee == self.fee && is_signing_outcome(
                    Ok(tx.tx_bytes),
                    self.msg,
                    self.account.sequence,
                    self.account.account_number,
                    fee_view_of(self.fee),
                    key.bytes@,
                    cfg.chain_id@,
                ),
                Err(e) => is_signing_outcome(
                    Err(e),
                    self.msg,
                    self.account.sequence,
                    self.account.account_number,
                    fee_view_of(self.fee),
                    key.bytes@,
                    cfg.chain_id@,
                ),
            },
    {
        match sign_tx(&self.msg, &self.account, &self.fee, key, cfg.chain_id.as_str()) {
            Ok(tx_bytes) => Ok(SignedTx { account: self.account, fee: self.fee, tx_bytes }),
            Err(e) => Err(e),
        }
    }
}

/// What a commit response amounts to: the rejection of the pre-check if
/// there is one, else the rejection of the delivery if there is one, else
/// the committed response.
pub open spec fn commit_outcome(res: TxCommitResponse) -> Result<TxCommitResponse, ClientError> {
    if res.check_tx.code != Code::Success {
        Err(
            ClientError::CosmosSdk {
                res: ChainResponse {
                    code: res.check_tx.code,
                    data: res.check_tx.data,
                    log: res.check_tx.log,
                    gas_wanted: res.check_tx.gas_wanted,
                    gas_used: res.check_tx.gas_used,
                },
            },
        )
    } else if res.deliver_tx.code != Code::Success {
        Err(
            ClientError::CosmosSdk {
                res: ChainResponse {
                    code: res.deliver_tx.code,
                    data: res.deliver_tx.data,
                    log: res.deliver_tx.log,
                    gas_wanted: res.deliver_tx.gas_wanted,
                    gas_used: res.deliver_tx.gas_used,
                },
            },
        )
    } else {
        Ok(res)
    }
}

/// Classifies the answer to a broadcast: committed, or rejected by the
/// chain in the pre-check or in the delivery.
pub fn commit_result(res: TxCommitResponse) -> (r: Result<TxCommitResponse, ClientError>)
    ensures
        r == commit_outcome(res),
{
    if res.check_tx.code.is_err() {
        return Err(ClientError::CosmosSdk { res: ChainResponse::from_tx_result(res.check_tx) });
    }
    if res.deliver_tx.code.is_err() {
        return Err(ClientError::CosmosSdk { res: ChainResponse::from_tx_result(res.deliver_tx) });
    }
    Ok(res)
}

/// A transaction is committed exactly where the chain accepted it in both
/// phases, and then with the response as it came. Every other response is
/// the chain's rejection: that of the pre-check where there is one, else
/// that of the delivery.
pub proof fn lemma_commit_is_all_or_nothing(res: TxCommitResponse)
    ensures
        commit_outcome(res) is Ok <==> res.check_tx.code == Code::Success && res.deliver_tx.code
            == Code::Success,
        commit_outcome(res) is Ok ==> commit_outcome(res) == Ok::<_, ClientError>(res),
        commit_outcome(res) matches Err(e) ==> e matches ClientError::CosmosSdk { res: rejection }
            && rejection.code != Code::Success && rejection.code == (if res.check_tx.code
            != Code::Success {
            res.check_tx.code
        } else {
            res.deliver_tx.code
        }),
{
}

/// Where a transaction stands between two round trips to the chain.
#[derive(Debug)]
pub enum TxState {
    /// The message is built; the signer's account is asked for.
    Built { msg: AnyMsg, account_id: String },
    /// The account is known; the fee is being resolved: the gas simulation
    /// is under way.
    Simulating { built: BuiltTx },
    /// The fee is resolved and the transaction is signed and broadcast: the
    /// commit is awaited.
    Broadcast { signed: SignedTx },
    /// The chain committed the transaction.
    Committed,
    /// The transaction failed.
    Failed,
}

/// What the chain answered to the last round trip, or why the round trip
/// failed.
#[derive(Debug)]
pub enum TxEvent {
    /// The answer to the account query.
    Account(Result<AbciQuery, ClientError>),
    /// The gas that the simulation used.
    Simulated(Result<u64, ClientError>),
    /// The answer to the broadcast.
    Commit(Result<TxCommitResponse, ClientError>),
}

/// What the caller is to do next.
#[derive(Debug)]
pub enum TxAction {
    /// Send the state query, and hand back its answer unchecked.
    QueryAccount(AbciRequest),
    /// Send the bytes to the gas simulation, and hand back the gas used.
    Simulate { tx_bytes: Vec<u8> },
    /// Broadcast the bytes, wait for the commit, and hand back the answer.
    Broadcast { tx_bytes: Vec<u8> },
    /// Stop and return this result.
    Return(Result<TxCommitResponse, ClientError>),
    /// Nothing: the event is not one that the state waits for.
    Nothing,
}

/// Whether the transaction has failed with `e`.
pub open spec fn failed_with(next: TxState, action: TxAction, e: ClientError) -> bool {
    next is Failed && action == TxAction::Return(Err(e))
}

/// The fee that is resolved from the gas that the simulation used.
pub open spec fn resolved_fee(gas_used: u64, cfg: ChainCfg) -> FeeView {
    FeeView {
        denom: cfg.denom@,
        amount: fee_amount_for(gas_limit_for(gas_used, cfg.gas_adjustment@), cfg.gas_prices@),
        gas_limit: gas_limit_for(gas_used, cfg.gas_adjustment@),
    }
}

/// Whether `next` and `action` follow on the signing for the simulation:
/// the signed bytes go to the simulation, and the transaction is built of
/// the message and the account; a failure to sign fails the transaction.
pub open spec fn is_simulation_start(
    signed: Result<Vec<u8>, ClientError>,
    msg: AnyMsg,
    account: (Seq<char>, u64, u64),
    next: TxState,
    action: TxAction,
) -> bool {
    match signed {
        Ok(bytes) => action matches TxAction::Simulate { tx_bytes } && tx_bytes@ == bytes@ && (
        next matches TxState::Simulating { built } && built.msg == msg && (
            built.account.address@,
            built.account.account_number,
            built.account.sequence,
        ) == account),
        Err(e) => failed_with(next, action, e),
    }
}

/// Whether `signed` is what signing for the simulation gives, with a fee of
/// zero, a gas limit of zero, and the sequence and the number of the
/// account, and `next` and `action` follow on it.
pub open spec fn is_simulation_signing(
    signed: Result<Vec<u8>, ClientError>,
    msg: AnyMsg,
    account: (Seq<char>, u64, u64),
    key: Seq<u8>,
    cfg: ChainCfg,
    next: TxState,
    action: TxAction,
) -> bool {
    is_signing_outcome(
        signed,
        msg,
        account.2,
        account.1,
        zero_fee(cfg.denom@),
        key,
        cfg.chain_id@,
    ) && is_simulation_start(signed, msg, account, next, action)
}

/// Whether `next` and `action` follow on the answer to the account query:
/// a rejected answer, or one without an account that can be read, fails the
/// transaction; else the transaction is signed for the simulation, with a
/// fee of zero, a gas limit of zero, and the sequence and the number of the
/// account in the answer.
pub open spec fn is_account_step(
    msg: AnyMsg,
    account_id: Seq<char>,
    answer: AbciQuery,
    key: Seq<u8>,
    cfg: ChainCfg,
    next: TxState,
    action: TxAction,
) -> bool {
    match abci_query_outcome(answer) {
        Err(e) => failed_with(next, action, e),
        Ok(_) => match account_in(answer.value@) {
            Err(AccountFailure::Decoding) => action matches TxAction::Return(
                Err(ClientError::ProtoDecoding { .. }),
            ) && next is Failed,
            Err(AccountFailure::Missing) => action matches TxAction::Return(
                Err(ClientError::AccountId { id }),
            ) && next is Failed && id@ == account_id,
            Ok(account) => exists|signed: Result<Vec<u8>, ClientError>| #[trigger]
                is_simulation_signing(signed, msg, account, key, cfg, next, action),
        },
    }
}

/// Whether `next` and `action` follow on the signing for the broadcast: the
/// signed bytes are broadcast; a failure to sign fails the transaction.
pub open spec fn is_broadcast_start(
    signed: Result<Vec<u8>, ClientError>,
    built: BuiltTx,
    fee: FeeView,
    next: TxState,
    action: TxAction,
) -> bool {
    match signed {
        Ok(bytes) => action matches TxAction::Broadcast { tx_bytes } && tx_bytes@ == bytes@ && (
        next matches TxState::Broadcast { signed: tx } && tx.tx_bytes@ == bytes@ && tx.account
            == built.account && fee_view_of(tx.fee) == fee),
        Err(e) => failed_with(next, action, e),
    }
}

/// Whether `signed` is what signing for the broadcast gives, with the
/// resolved fee and the sequence and the number of the account that the
/// simulation ran with, and `next` and `action` follow on it.
pub open spec fn is_broadcast_signing(
    signed: Result<Vec<u8>, ClientError>,
    built: BuiltTx,
    gas_used: u64,
    key: Seq<u8>,
    cfg: ChainCfg,
    next: TxState,
    action: TxAction,
) -> bool {
    is_signing_outcome(
        signed,
        built.msg,
        built.account.sequence,
        built.account.account_number,
        resolved_fee(gas_used, cfg),
        key,
        cfg.chain_id@,
    ) && is_broadcast_start(signed, built, resolved_fee(gas_used, cfg), next, action)
}

/// Whether `next` and `action` follow on the gas that the simulation used:
/// the fee is resolved, and the transaction is signed again, with that fee
/// and the sequence and the number of the same account.
pub open spec fn is_simulated_step(
    built: BuiltTx,
    gas_used: u64,
    key: Seq<u8>,
    cfg: ChainCfg,
    next: TxState,
    action: TxAction,
) -> bool {
    exists|signed: Result<Vec<u8>, ClientError>| #[trigger]
        is_broadcast_signing(signed, built, gas_used, key, cfg, next, action)
}

/// Whether `next` and `action` follow on `event` in `state`.
///
/// A failed round trip fails the transaction with the failure of the round
/// trip. An event that the state does not wait for changes nothing.
pub open spec fn is_tx_step(
    state: TxState,
    event: TxEvent,
    key: Seq<u8>,
    cfg: ChainCfg,
    next: TxState,
    action: TxAction,
) -> bool {
    match (state, event) {
        (TxState::Built { .. }, TxEvent::Account(Err(e))) => failed_with(next, action, e),
        (TxState::Built { msg, account_id }, TxEvent::Account(Ok(answer))) => is_account_step(
            msg,
            account_id@,
            answer,
            key,
            cfg,
            next,
            action,
        ),
        (TxState::Simulating { .. }, TxEvent::Simulated(Err(e))) => failed_with(next, action, e),
        (TxState::Simulating { built }, TxEvent::Simulated(Ok(gas_used))) => is_simulated_step(
            built,
            gas_used,
            key,
            cfg,
            next,
            action,
        ),
        (TxState::Broadcast { .. }, TxEvent::Commit(Err(e))) => failed_with(next, action, e),
        (TxState::Broadcast { .. }, TxEvent::Commit(Ok(res))) => match commit_outcome(res) {
            Ok(committed) => next is Committed && action == TxAction::Return(Ok(committed)),
            Err(e) => failed_with(next, action, e),
        },
        _ => next == state && action is Nothing,
    }
}

/// Begins to send a message in a transaction of its own, signed by the
/// account with the given address: the account is to be asked for.
pub fn send_tx(msg: AnyMsg, account_id: String) -> (r: (TxState, TxAction))
    ensures
        r.0 == (TxState::Built { msg, account_id }),
        r.1 matches TxAction::QueryAccount(req) && req.path@ == account_query_path() && req.data@
            == account_request_bytes(account_id@),
{
    match account_request(account_id.as_str()) {
        Ok(request) => (TxState::Built { msg, account_id }, TxAction::QueryAccount(request)),
        Err(e) => (TxState::Failed, TxAction::Return(Err(e))),
    }
}

/// Takes one step of sending a transaction: from the state and the answer
/// to the last round trip, to the next state and what to do.
///
/// With the account known, the transaction is signed for the gas
/// simulation, with a fee of zero. With the gas known, the fee is resolved
/// and the transaction is signed again, with the fee and the same account,
/// and so the same sequence. With the answer to the broadcast, the
/// transaction is committed unless the chain rejected it in the pre-check
/// or in the delivery.
pub fn tx_step(state: TxState, event: TxEvent, key: &PrivateKey, cfg: &ChainCfg) -> (r: (
    TxState,
    TxAction,
))
    ensures
        is_tx_step(state, event, key.bytes@, *cfg, r.0, r.1),
{
    match (state, event) {
        (TxState::Built { msg, account_id }, TxEvent::Account(answer)) => {
            let answer = match answer {
                Ok(answer) => answer,
                Err(e) => {
                    return (TxState::Failed, TxAction::Return(Err(e)));
                },
            };
            let answer = match abci_query(answer) {
                Ok(answer) => answer,
                Err(e) => {
                    return (TxState::Failed, TxAction::Return(Err(e)));
                },
            };
            let account = match account(&answer, account_id.as_str()) {
                Ok(account) => account,
                Err(e) => {
                    return (TxState::Failed, TxAction::Return(Err(e)));
                },
            };
            let tx = BuiltTx::new(msg, account);
            let signed = tx.simulation_tx(key, cfg);
            let ghost outcome = signed;
            let r = match signed {
                Ok(tx_bytes) => (
                    TxState::Simulating { built: tx },
                    TxAction::Simulate { tx_bytes },
                ),
                Err(e) => (TxState::Failed, TxAction::Return(Err(e))),
            };
            assert(is_signing_outcome(
                outcome,
                msg,
                account.sequence,
                account.account_number,
                zero_fee(cfg.denom@),
                key.bytes@,
                cfg.chain_id@,
            ));
            assert(is_simulation_start(
                outcome,
                msg,
                (account.address@, account.account_number, account.sequence),
                r.0,
                r.1,
            ));
            let ghost read = (account.address@, account.account_number, account.sequence);
            assert(is_simulation_signing(outcome, msg, read, key.bytes@, *cfg, r.0, r.1));
            assert(exists|signed: Result<Vec<u8>, ClientError>| #[trigger]
                is_simulation_signing(signed, msg, read, key.bytes@, *cfg, r.0, r.1));
            assert(match account_in(answer.value@) {
                Ok(a) => a == read,
                Err(_) => false,
            });
            assert(is_account_step(msg, account_id@, answer, key.bytes@, *cfg, r.0, r.1));
            r
        },
        (TxState::Simulating { built }, TxEvent::Simulated(gas_used)) => {
            let gas_used = match gas_used {
                Ok(gas_used) => gas_used,
                Err(e) => {
                    return (TxState::Failed, TxAction::Return(Err(e)));
                },
            };
            let ghost fee = resolved_fee(gas_used, *cfg);
            let resolved = built.resolve_fee(gas_used, cfg);
            assert(fee_view_of(resolved.fee) == fee);
            match resolved.sign(key, cfg) {
                Ok(signed) => {
                    let tx_bytes = signed.tx_bytes.clone();
                    let ghost outcome = Ok::<Vec<u8>, ClientError>(signed.tx_bytes);
                    let r = (TxState::Broadcast { signed }, TxAction::Broadcast { tx_bytes });
                    assert(is_signing_outcome(
                        outcome,
                        built.msg,
                        built.account.sequence,
                        built.account.account_number,
                        fee,
                        key.bytes@,
                        cfg.chain_id@,
                    ));
                    assert(is_broadcast_start(outcome, built, fee, r.0, r.1));
                    assert(is_broadcast_signing(
                        outcome,
                        built,
                        gas_used,
                        key.bytes@,
                        *cfg,
                        r.0,
                        r.1,
                    ));
                    r
                },
                Err(e) => {
                    let ghost outcome = Err::<Vec<u8>, ClientError>(e);
                    let r = (TxState::Failed, TxAction::Return(Err(e)));
                    assert(is_signing_outcome(
                        outcome,
                        built.msg,
                        built.account.sequence,
                        built.account.account_number,
                        fee,
                        key.bytes@,
                        cfg.chain_id@,
                    ));
                    assert(is_broadcast_start(outcome, built, fee, r.0, r.1));
                    assert(is_broadcast_signing(
                        outcome,
                        built,
                        gas_used,
                        key.bytes@,
                        *cfg,
                        r.0,
                        r.1,
                    ));
                    r
                },
            }
        },
        (TxState::Broadcast { .. }, TxEvent::Commit(res)) => {
            let res = match res {
                Ok(res) => res,
                Err(e) => {
                    return (TxState::Failed, TxAction::Return(Err(e)));
                },
            };
            match commit_result(res) {
                Ok(committed) => (TxState::Committed, TxAction::Return(Ok(committed))),
                Err(e) => (TxState::Failed, TxAction::Return(Err(e))),
            }
        },
        (state, _) => (state, TxAction::Nothing),
    }
}

/// Whether `i` is the place of the first event of the given type.
pub open spec fn is_first_event(events: Seq<Event>, type_str: Seq<char>, i: int) -> bool {
    &&& 0 <= i < events.len()
    &&& events[i].type_str@ == type_str
    &&& forall|j: int| 0 <= j < i ==> (#[trigger] events[j]).type_str@ != type_str
}

/// Whether no event is of the given type.
pub open spec fn no_event(events: Seq<Event>, type_str: Seq<char>) -> bool {
    forall|j: int| 0 <= j < events.len() ==> (#[trigger] events[j]).type_str@ != type_str
}

/// Finds the first event of the given type among the events of the
/// delivered transaction.
pub fn find_event<'a>(res: &'a TxCommitResponse, key_name: &str) -> (r: Option<&'a Event>)
    ensures
        match r {
            Some(event) => exists|i: int|
                is_first_event(res.deliver_tx.events@, key_name@, i) && *event
                    == res.deliver_tx.events@[i],
            None => no_event(res.deliver_tx.events@, key_name@),
        },
{
    let wanted = key_name.to_owned();
    let mut i: usize = 0;
    while i < res.deliver_tx.events.len()
        invariant
            0 <= i <= res.deliver_tx.events@.len(),
            wanted@ == key_name@,
            forall|j: int| 0 <= j < i ==> (#[trigger] res.deliver_tx.events@[j]).type_str@ != key_name@,
        decreases res.deliver_tx.events@.len() - i,
    {
        if res.deliver_tx.events[i].type_str == wanted {
            assert(is_first_event(res.deliver_tx.events@, key_name@, i as int));
            return Some(&res.deliver_tx.events[i]);
        }
        i += 1;
    }
    None
}

/// Whether `i` is the place of the first attribute with the given key.
pub open spec fn is_first_attribute(attributes: Seq<Tag>, key: Seq<char>, i: int) -> bool {
    &&& 0 <= i < attributes.len()
    &&& attributes[i].key@ == key
    &&& forall|j: int| 0 <= j < i ==> (#[trigger] attributes[j]).key@ != key
}

/// Whether no attribute has the given key.
pub open spec fn no_attribute(attributes: Seq<Tag>, key: Seq<char>) -> bool {
    forall|j: int| 0 <= j < attributes.len() ==> (#[trigger] attributes[j]).key@ != key
}

/// Finds the value of the first attribute of the event with the given key.
pub fn find_attribute<'a>(event: &'a Event, key: &str) -> (r: Option<&'a String>)
    ensures
        match r {
            Some(value) => exists|i: int|
                is_first_attribute(event.attributes@, key@, i) && *value
                    == event.attributes@[i].value,
            None => no_attribute(event.attributes@, key@),
        },
{
    let wanted = key.to_owned();
    let mut i: usize = 0;
    while i < event.attributes.len()
        invariant
            0 <= i <= event.attributes@.len(),
            wanted@ == key@,
            forall|j: int| 0 <= j < i ==> (#[trigger] event.attributes@[j]).key@ != key@,
        decreases event.attributes@.len() - i,
    {
        if event.attributes[i].key == wanted {
            assert(is_first_attribute(event.attributes@, key@, i as int));
            return Some(&event.attributes[i].value);
        }
        i += 1;
    }
    None
}

} // verus!
