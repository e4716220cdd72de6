//! The calls into the Cosmos SDK bindings: parsing of identifiers, encoding
//! and decoding of protobuf messages, and signing.
//!
//! Nothing in this file is proved. Each function states what the binding it
//! calls is taken to do.

use super::cosmos::{Account, AnyMsg};
use super::cosmwasm::AccessType;
use cosmos_sdk_proto::cosmos::auth::v1beta1::{
    BaseAccount, QueryAccountRequest, QueryAccountResponse,
};
use cosmos_sdk_proto::cosmwasm::wasm::v1::{
    QuerySmartContractStateRequest, QuerySmartContractStateResponse,
};
use cosmrs::bip32::{DerivationPath, Language, Mnemonic, Seed, XPrv};
use cosmrs::cosmwasm::{
    AccessConfig, MsgExecuteContract, MsgInstantiateContract, MsgMigrateContract, MsgStoreCode,
};
use cosmrs::crypto::secp256k1::SigningKey;
use cosmrs::crypto::PublicKey;
use cosmrs::tendermint::chain::Id;
use cosmrs::tx::{AuthInfo, Body, Fee, Msg, Raw, SignDoc, SignerInfo};
use cosmrs::{AccountId, Any, Coin, Denom, ErrorReport};
use prost::{DecodeError, EncodeError, Message};
use vstd::prelude::*;

verus! {

/// `cosmrs::ErrorReport`: why a call into the bindings failed.
#[verifier::external_type_specification]
#[verifier::external_body]
pub struct ExErrorReport(ErrorReport);

/// `prost::EncodeError`: why a message could not be encoded.
#[verifier::external_type_specification]
#[verifier::external_body]
pub struct ExEncodeError(EncodeError);

/// `prost::DecodeError`: why bytes could not be decoded.
#[verifier::external_type_specification]
#[verifier::external_body]
pub struct ExDecodeError(DecodeError);

/// `tendermint::Error`: why a chain id could not be parsed.
#[verifier::external_type_specification]
#[verifier::external_body]
pub struct ExTendermintError(cosmrs::tendermint::Error);

/// `cosmrs::AccountId`: a parsed account address.
#[verifier::external_type_specification]
#[verifier::external_body]
pub struct ExAccountId(AccountId);

/// `cosmrs::Denom`: a parsed denomination.
#[verifier::external_type_specification]
#[verifier::external_body]
pub struct ExDenom(Denom);

/// `tendermint::chain::Id`: a parsed chain id.
#[verifier::external_type_specification]
#[verifier::external_body]
pub struct ExChainId(Id);

/// `cosmrs::crypto::PublicKey`: a public key.
#[verifier::external_type_specification]
#[verifier::external_body]
pub struct ExPublicKey(PublicKey);

/// `bip32::Error`: why a mnemonic or a derivation path was refused.
#[verifier::external_type_specification]
#[verifier::external_body]
pub struct ExBip32Error(cosmrs::bip32::Error);

/// `bip32::Mnemonic`: a parsed mnemonic phrase.
#[verifier::external_type_specification]
#[verifier::external_body]
pub struct ExMnemonic(Mnemonic);

/// `bip32::Seed`: the seed that a mnemonic gives.
#[verifier::external_type_specification]
#[verifier::external_body]
pub struct ExSeed(Seed);

/// `bip32::DerivationPath`: a parsed derivation path.
#[verifier::external_type_specification]
#[verifier::external_body]
pub struct ExDerivationPath(DerivationPath);

/// `cosmrs::tx::Fee`: the fee of a transaction.
#[verifier::external_type_specification]
#[verifier::external_body]
pub struct ExFee(Fee);

/// `cosmrs::tx::SignerInfo`: the key, the signing mode and the sequence of
/// one signer.
#[verifier::external_type_specification]
#[verifier::external_body]
pub struct ExSignerInfo(SignerInfo);

/// `cosmrs::tx::AuthInfo`: the signers and the fee of a transaction.
#[verifier::external_type_specification]
#[verifier::external_body]
pub struct ExAuthInfo(AuthInfo);

/// `cosmrs::tx::Body`: the messages, the memo and the timeout of a
/// transaction.
#[verifier::external_type_specification]
#[verifier::external_body]
pub struct ExBody(Body);

/// `cosmrs::tx::SignDoc`: what a signer signs.
#[verifier::external_type_specification]
#[verifier::external_body]
pub struct ExSignDoc(SignDoc);

/// `cosmrs::tx::Raw`: a signed transaction.
#[verifier::external_type_specification]
#[verifier::external_body]
pub struct ExRaw(Raw);

/// `Display` of `cosmrs::ErrorReport`: the message of the failure.
#[verifier::external_body]
pub(crate) fn report_text(e: &ErrorReport) -> String {
    e.to_string()
}

/// `Display` of `prost::EncodeError`: the message of the failure.
#[verifier::external_body]
pub(crate) fn encode_error_text(e: &EncodeError) -> String {
    e.to_string()
}

/// `Display` of `prost::DecodeError`: the message of the failure.
#[verifier::external_body]
pub(crate) fn decode_error_text(e: &DecodeError) -> String {
    e.to_string()
}

/// Whether a character may stand in a denomination.
pub open spec fn denom_char(c: char) -> bool {
    ||| 'A' <= c <= 'Z'
    ||| 'a' <= c <= 'z'
    ||| '0' <= c <= '9'
    ||| c == '/'
    ||| c == ':'
    ||| c == '.'
    ||| c == '_'
    ||| c == '-'
}

/// Whether a string is a well-formed denomination: 3 to 128 characters, each
/// of them allowed in a denomination.
pub open spec fn denom_valid(s: Seq<char>) -> bool {
    &&& 3 <= s.len() <= 128
    &&& forall|i: int| 0 <= i < s.len() ==> denom_char(#[trigger] s[i])
}

/// Whether a character may stand in a chain id.
pub open spec fn chain_id_char(c: char) -> bool {
    ||| 'A' <= c <= 'Z'
    ||| 'a' <= c <= 'z'
    ||| '0' <= c <= '9'
    ||| c == '-'
    ||| c == '_'
    ||| c == '.'
}

/// Whether a string is a well-formed chain id: 1 to 50 characters, each of
/// them allowed in a chain id.
pub open spec fn chain_id_valid(s: Seq<char>) -> bool {
    &&& 1 <= s.len() <= 50
    &&& forall|i: int| 0 <= i < s.len() ==> chain_id_char(#[trigger] s[i])
}

/// The name that a denomination holds.
pub uninterp spec fn denom_text(denom: Denom) -> Seq<char>;

/// The name that a chain id holds.
pub uninterp spec fn chain_id_text(id: Id) -> Seq<char>;

/// The address that an account id holds, in Bech32.
pub uninterp spec fn account_id_text(id: AccountId) -> Seq<char>;

/// The address that the account id parsed from a string holds; `None`
/// where the string is no account address.
pub uninterp spec fn parsed_account_id(address: Seq<char>) -> Option<Seq<char>>;

/// Whether a string is a well-formed account address.
pub open spec fn account_id_valid(s: Seq<char>) -> bool {
    parsed_account_id(s) is Some
}

/// `cosmrs::Denom::from_str`: accepts a name whose length in bytes is 3 to
/// 128 and whose characters are all of `A-Z a-z 0-9 / : . _ -`, and holds
/// it as it is. These characters are one byte each, so the length counts
/// characters as well.
#[verifier::external_body]
pub(crate) fn parse_denom(name: &str) -> (r: Result<Denom, ErrorReport>)
    ensures
        r is Ok <==> denom_valid(name@),
        r matches Ok(denom) ==> denom_text(denom) == name@,
{
    name.parse::<Denom>()
}

/// `tendermint::chain::Id::from_str`: accepts a name of 1 to 50 bytes, all
/// of `A-Z a-z 0-9 - _ .`, and holds it as it is.
#[verifier::external_body]
pub(crate) fn parse_chain_id(name: &str) -> (r: Result<Id, cosmrs::tendermint::Error>)
    ensures
        r is Ok <==> chain_id_valid(name@),
        r matches Ok(id) ==> chain_id_text(id) == name@,
{
    name.parse::<Id>()
}

/// `cosmrs::AccountId::from_str`: decodes a Bech32 address, checks its
/// prefix and length, and holds the address in lower case. The outcome
/// depends on the string alone.
#[verifier::external_body]
pub(crate) fn parse_account_id(address: &str) -> (r: Result<AccountId, ErrorReport>)
    ensures
        match r {
            Ok(id) => parsed_account_id(address@) == Some(account_id_text(id)),
            Err(_) => parsed_account_id(address@) is None,
        },
{
    address.parse::<AccountId>()
}

/// What a fee holds: one coin of a denomination, and a gas limit; no payer
/// and no granter.
pub ghost struct FeeView {
    pub denom: Seq<char>,
    pub amount: u64,
    pub gas_limit: u64,
}

/// What the info of a signer holds: the bytes of the public key, and the
/// sequence; the signing mode is direct.
pub ghost struct SignerView {
    pub public_key: Seq<u8>,
    pub sequence: u64,
}

/// What an auth info holds: one signer, and the fee.
pub ghost struct AuthView {
    pub signer: SignerView,
    pub fee: FeeView,
}

/// What the body of a transaction holds: one message, the memo and the
/// timeout height; no extension options.
pub ghost struct BodyView {
    pub type_url: Seq<char>,
    pub value: Seq<u8>,
    pub memo: Seq<char>,
    pub timeout_height: u64,
}

/// What a sign document is made of.
pub ghost struct SignDocView {
    pub body: BodyView,
    pub auth: AuthView,
    pub chain_id: Seq<char>,
    pub account_number: u64,
}

/// What a fee holds.
pub uninterp spec fn fee_view(fee: Fee) -> FeeView;

/// The bytes of a public key, as `PublicKey::to_bytes` gives them.
pub uninterp spec fn public_key_bytes(public_key: PublicKey) -> Seq<u8>;

/// What the info of a signer holds.
pub uninterp spec fn signer_view(signer: SignerInfo) -> SignerView;

/// What an auth info holds.
pub uninterp spec fn auth_view(auth: AuthInfo) -> AuthView;

/// What the body of a transaction holds.
pub uninterp spec fn body_view(body: Body) -> BodyView;

/// What a sign document was made of.
pub uninterp spec fn sign_doc_view(doc: SignDoc) -> SignDocView;

/// The bytes that a signed transaction is written as.
pub uninterp spec fn raw_text(raw: Raw) -> Seq<u8>;

/// The bytes of the transaction that signing the document with the private
/// key of the given bytes gives; `None` where the bytes are no private key
/// or the key cannot sign.
pub uninterp spec fn signed_tx(doc: SignDoc, key: Seq<u8>) -> Option<Seq<u8>>;

/// `cosmrs::tx::Fee::from_amount_and_gas`: the fee of one coin with a gas
/// limit, without payer or granter.
#[verifier::external_body]
pub(crate) fn fee_of(denom: Denom, amount: u64, gas_limit: u64) -> (r: Fee)
    ensures
        fee_view(r) == (FeeView { denom: denom_text(denom), amount, gas_limit }),
{
    Fee::from_amount_and_gas(Coin { denom, amount: amount.into() }, gas_limit)
}

/// The public key of the private key with the given bytes, as its bytes;
/// `None` where the bytes are no private key.
pub uninterp spec fn public_key_of(key: Seq<u8>) -> Option<Seq<u8>>;

/// `cosmrs::crypto::secp256k1::SigningKey::public_key`, of the signing key
/// with the given bytes. Fails where the bytes are no private key. The
/// outcome depends on the bytes alone.
#[verifier::external_body]
pub(crate) fn public_key(key: &Vec<u8>) -> (r: Result<PublicKey, ErrorReport>)
    ensures
        match r {
            Ok(public) => public_key_of(key@) == Some(public_key_bytes(public)),
            Err(_) => public_key_of(key@) is None,
        },
{
    Ok(SigningKey::from_slice(key.as_slice())?.public_key())
}

/// The address, in Bech32 under the given prefix, of the account of the
/// public key with the given bytes; `None` where the key is no secp256k1
/// key or the bindings refuse the prefix.
pub uninterp spec fn account_address_of(public_key: Seq<u8>, prefix: Seq<char>) -> Option<
    Seq<char>,
>;

/// `cosmrs::crypto::PublicKey::account_id`: the account of the key under
/// the prefix. The outcome depends on the key and the prefix alone.
#[verifier::external_body]
pub(crate) fn account_id_of(public_key: &PublicKey, prefix: &str) -> (r: Result<
    AccountId,
    ErrorReport,
>)
    ensures
        match r {
            Ok(id) => account_address_of(public_key_bytes(*public_key), prefix@) == Some(
                account_id_text(id),
            ),
            Err(_) => account_address_of(public_key_bytes(*public_key), prefix@) is None,
        },
{
    public_key.account_id(prefix)
}

/// `AsRef<str>` of `cosmrs::AccountId`: the address that the id holds.
#[verifier::external_body]
pub(crate) fn account_text(id: &AccountId) -> (r: String)
    ensures
        r@ == account_id_text(*id),
{
    id.as_ref().to_string()
}

/// `cosmrs::tx::SignerInfo::single_direct`, for a signer whose key is given.
#[verifier::external_body]
pub(crate) fn single_direct(public_key: PublicKey, sequence: u64) -> (r: SignerInfo)
    ensures
        signer_view(r) == (SignerView { public_key: public_key_bytes(public_key), sequence }),
{
    SignerInfo::single_direct(Some(public_key), sequence)
}

/// `cosmrs::tx::SignerInfo::auth_info`: the auth info of this one signer
/// and the fee.
#[verifier::external_body]
pub(crate) fn auth_info(signer: SignerInfo, fee: Fee) -> (r: AuthInfo)
    ensures
        auth_view(r) == (AuthView { signer: signer_view(signer), fee: fee_view(fee) }),
{
    signer.auth_info(fee)
}

/// `cosmrs::tx::Body::new`, for a body of one message.
#[verifier::external_body]
pub(crate) fn tx_body(msg: &AnyMsg, memo: &str, timeout_height: u16) -> (r: Body)
    ensures
        body_view(r) == (BodyView {
            type_url: msg.type_url@,
            value: msg.value@,
            memo: memo@,
            timeout_height: timeout_height as u64,
        }),
{
    let any = Any { type_url: msg.type_url.clone(), value: msg.value.clone() };
    Body::new(vec![any], memo, timeout_height)
}

/// `cosmrs::tx::SignDoc::new`: the document of the body, the auth info, the
/// chain id and the account number. It encodes the body and the auth info
/// into buffers that grow, so it does not fail.
#[verifier::external_body]
pub(crate) fn sign_doc(
    body: &Body,
    auth_info: &AuthInfo,
    chain_id: &Id,
    account_number: u64,
) -> (r: Result<SignDoc, ErrorReport>)
    ensures
        r is Ok,
        r matches Ok(doc) ==> sign_doc_view(doc) == (SignDocView {
            body: body_view(*body),
            auth: auth_view(*auth_info),
            chain_id: chain_id_text(*chain_id),
            account_number,
        }),
{
    SignDoc::new(body, auth_info, chain_id, account_number)
}

/// `cosmrs::tx::SignDoc::sign`, with the signing key of the given bytes:
/// fails where the bytes are no private key or the key cannot sign. The
/// signature is deterministic, so the outcome depends on the document and
/// the bytes alone.
#[verifier::external_body]
pub(crate) fn sign(doc: SignDoc, key: &Vec<u8>) -> (r: Result<Raw, ErrorReport>)
    ensures
        match r {
            Ok(raw) => signed_tx(doc, key@) == Some(raw_text(raw)),
            Err(_) => signed_tx(doc, key@) is None,
        },
{
    doc.sign(&SigningKey::from_slice(key.as_slice())?)
}

/// `cosmrs::tx::Raw::to_bytes`: the bytes of the signed transaction. It
/// encodes into a buffer that grows, so it does not fail.
#[verifier::external_body]
pub(crate) fn raw_bytes(raw: &Raw) -> (r: Result<Vec<u8>, ErrorReport>)
    ensures
        r is Ok,
        r matches Ok(bytes) ==> bytes@ == raw_text(*raw),
{
    raw.to_bytes()
}

/// The type URL of a store-code message.
pub open spec fn store_code_url() -> Seq<char> {
    "/cosmwasm.wasm.v1.MsgStoreCode"@
}

/// The type URL of an instantiate message.
pub open spec fn instantiate_url() -> Seq<char> {
    "/cosmwasm.wasm.v1.MsgInstantiateContract"@
}

/// The type URL of an execute message.
pub open spec fn execute_url() -> Seq<char> {
    "/cosmwasm.wasm.v1.MsgExecuteContract"@
}

/// The type URL of a migrate message.
pub open spec fn migrate_url() -> Seq<char> {
    "/cosmwasm.wasm.v1.MsgMigrateContract"@
}

/// The addresses that account ids hold.
pub open spec fn ids_text(ids: Seq<AccountId>) -> Seq<Seq<char>> {
    ids.map_values(|id: AccountId| account_id_text(id))
}

/// Coins as plain values: the name of the denomination, and the amount.
pub open spec fn coins_text(coins: Seq<(Denom, u64)>) -> Seq<(Seq<char>, u64)> {
    coins.map_values(|coin: (Denom, u64)| (denom_text(coin.0), coin.1))
}

/// An instantiate permission as plain values.
pub open spec fn permission_text(permission: Option<(AccessType, Vec<AccountId>)>) -> Option<
    (AccessType, Seq<Seq<char>>),
> {
    match permission {
        Some((access, ids)) => Some((access, ids_text(ids@))),
        None => None,
    }
}

/// The protobuf encoding of the message that stores a code.
pub uninterp spec fn store_code_bytes(
    sender: Seq<char>,
    wasm_byte_code: Seq<u8>,
    permission: Option<(AccessType, Seq<Seq<char>>)>,
) -> Seq<u8>;

/// The protobuf encoding of the message that instantiates a contract.
pub uninterp spec fn instantiate_bytes(
    sender: Seq<char>,
    admin: Option<Seq<char>>,
    code_id: u64,
    label: Seq<char>,
    msg: Seq<u8>,
    funds: Seq<(Seq<char>, u64)>,
) -> Seq<u8>;

/// The protobuf encoding of the message that executes on a contract.
pub uninterp spec fn execute_bytes(
    sender: Seq<char>,
    contract: Seq<char>,
    msg: Seq<u8>,
    funds: Seq<(Seq<char>, u64)>,
) -> Seq<u8>;

/// The protobuf encoding of the message that migrates a contract.
pub uninterp spec fn migrate_bytes(
    sender: Seq<char>,
    contract: Seq<char>,
    code_id: u64,
    msg: Seq<u8>,
) -> Seq<u8>;

/// `cosmrs::tx::Msg::to_any` of a `MsgStoreCode`: the message under its
/// type URL. It encodes into a buffer that grows, so it does not fail.
#[verifier::external_body]
pub(crate) fn store_code_any(
    sender: AccountId,
    wasm_byte_code: Vec<u8>,
    permission: Option<(AccessType, Vec<AccountId>)>,
) -> (r: Result<AnyMsg, ErrorReport>)
    ensures
        r is Ok,
        r matches Ok(m) ==> m.type_url@ == store_code_url() && m.value@ == store_code_bytes(
            account_id_text(sender),
            wasm_byte_code@,
            permission_text(permission),
        ),
{
    let instantiate_permission = permission.map(|(permission, addresses)| {
        let permission = match permission {
            AccessType::Unspecified => cosmrs::cosmwasm::AccessType::Unspecified,
            AccessType::Nobody => cosmrs::cosmwasm::AccessType::Nobody,
            AccessType::Everybody => cosmrs::cosmwasm::AccessType::Everybody,
            AccessType::AnyOfAddresses => cosmrs::cosmwasm::AccessType::AnyOfAddresses,
        };
        AccessConfig { permission, addresses }
    });
    let any = MsgStoreCode { sender, wasm_byte_code, instantiate_permission }.to_any()?;
    Ok(AnyMsg { type_url: any.type_url, value: any.value })
}

/// `cosmrs::tx::Msg::to_any` of a `MsgInstantiateContract`: the message
/// under its type URL. It encodes into a buffer that grows, so it does not
/// fail.
#[verifier::external_body]
pub(crate) fn instantiate_any(
    sender: AccountId,
    admin: Option<AccountId>,
    code_id: u64,
    label: String,
    msg: Vec<u8>,
    funds: Vec<(Denom, u64)>,
) -> (r: Result<AnyMsg, ErrorReport>)
    ensures
        r is Ok,
        r matches Ok(m) ==> m.type_url@ == instantiate_url() && m.value@ == instantiate_bytes(
            account_id_text(sender),
            match admin {
                Some(id) => Some(account_id_text(id)),
                None => None,
            },
            code_id,
            label@,
            msg@,
            coins_text(funds@),
        ),
{
    let label = Some(label);
    let funds = funds.into_iter().map(|(denom, a)| Coin { denom, amount: a.into() }).collect();
    let any = MsgInstantiateContract { sender, admin, code_id, label, msg, funds }.to_any()?;
    Ok(AnyMsg { type_url: any.type_url, value: any.value })
}

/// `cosmrs::tx::Msg::to_any` of a `MsgExecuteContract`: the message under
/// its type URL. It encodes into a buffer that grows, so it does not fail.
#[verifier::external_body]
pub(crate) fn execute_any(
    sender: AccountId,
    contract: AccountId,
    msg: Vec<u8>,
    funds: Vec<(Denom, u64)>,
) -> (r: Result<AnyMsg, ErrorReport>)
    ensures
        r is Ok,
        r matches Ok(m) ==> m.type_url@ == execute_url() && m.value@ == execute_bytes(
            account_id_text(sender),
            account_id_text(contract),
            msg@,
            coins_text(funds@),
        ),
{
    let funds = funds.into_iter().map(|(denom, a)| Coin { denom, amount: a.into() }).collect();
    let any = MsgExecuteContract { sender, contract, msg, funds }.to_any()?;
    Ok(AnyMsg { type_url: any.type_url, value: any.value })
}

/// `cosmrs::tx::Msg::to_any` of a `MsgMigrateContract`: the message under
/// its type URL. It encodes into a buffer that grows, so it does not fail.
#[verifier::external_body]
pub(crate) fn migrate_any(
    sender: AccountId,
    contract: AccountId,
    code_id: u64,
    msg: Vec<u8>,
) -> (r: Result<AnyMsg, ErrorReport>)
    ensures
        r is Ok,
        r matches Ok(m) ==> m.type_url@ == migrate_url() && m.value@ == migrate_bytes(
            account_id_text(sender),
            account_id_text(contract),
            code_id,
            msg@,
        ),
{
    let any = MsgMigrateContract { sender, contract, code_id, msg }.to_any()?;
    Ok(AnyMsg { type_url: any.type_url, value: any.value })
}

/// The protobuf encoding of the query for the account with an address.
pub uninterp spec fn account_request_bytes(address: Seq<char>) -> Seq<u8>;

/// `prost::Message::encode` of a `QueryAccountRequest`, into a buffer that
/// grows, so it does not fail.
#[verifier::external_body]
pub(crate) fn encode_account_request(address: &str) -> (r: Result<Vec<u8>, EncodeError>)
    ensures
        r is Ok,
        r matches Ok(bytes) ==> bytes@ == account_request_bytes(address@),
{
    let req = QueryAccountRequest { address: address.to_string() };
    let mut buf = Vec::with_capacity(req.encoded_len());
    req.encode(&mut buf)?;
    Ok(buf)
}

/// The protobuf encoding of a smart query of the contract at an address.
pub uninterp spec fn contract_query_bytes(address: Seq<char>, query_data: Seq<u8>) -> Seq<u8>;

/// `prost::Message::encode` of a `QuerySmartContractStateRequest`, into a
/// buffer that grows, so it does not fail.
#[verifier::external_body]
pub(crate) fn encode_contract_query(address: &str, query_data: &Vec<u8>) -> (r: Result<
    Vec<u8>,
    EncodeError,
>)
    ensures
        r is Ok,
        r matches Ok(bytes) ==> bytes@ == contract_query_bytes(address@, query_data@),
{
    let address = address.to_string();
    let req = QuerySmartContractStateRequest { address, query_data: query_data.clone() };
    let mut buf = Vec::with_capacity(req.encoded_len());
    req.encode(&mut buf)?;
    Ok(buf)
}

/// What the answer to an account query decodes to: `None` where the bytes
/// are no such answer; else the account that the answer wraps, if any, as
/// its type URL and its bytes.
pub uninterp spec fn decoded_account_response(bytes: Seq<u8>) -> Option<
    Option<(Seq<char>, Seq<u8>)>,
>;

/// `prost::Message::decode` to a `QueryAccountResponse`.
#[verifier::external_body]
pub(crate) fn decode_account_response(bytes: &Vec<u8>) -> (r: Result<Option<AnyMsg>, DecodeError>)
    ensures
        match r {
            Ok(Some(any)) => decoded_account_response(bytes@) == Some(
                Some((any.type_url@, any.value@)),
            ),
            Ok(None) => decoded_account_response(bytes@) == Some(
                None::<(Seq<char>, Seq<u8>)>,
            ),
            Err(_) => decoded_account_response(bytes@) is None,
        },
{
    match QueryAccountResponse::decode(bytes.as_slice())?.account {
        Some(any) => Ok(Some(AnyMsg { type_url: any.type_url, value: any.value })),
        None => Ok(None),
    }
}

/// What the bytes of a base account decode to: `None` where they are no
/// base account; else its address, account number and sequence.
pub uninterp spec fn decoded_base_account(bytes: Seq<u8>) -> Option<(Seq<char>, u64, u64)>;

/// `prost::Message::decode` to a `BaseAccount`.
#[verifier::external_body]
pub(crate) fn decode_base_account(bytes: &Vec<u8>) -> (r: Result<Account, DecodeError>)
    ensures
        match r {
            Ok(account) => decoded_base_account(bytes@) == Some(
                (account.address@, account.account_number, account.sequence),
            ),
            Err(_) => decoded_base_account(bytes@) is None,
        },
{
    let account = BaseAccount::decode(bytes.as_slice())?;
    Ok(
        Account {
            address: account.address,
            account_number: account.account_number,
            sequence: account.sequence,
        },
    )
}

/// What the answer to a smart query decodes to: `None` where the bytes are
/// no such answer; else the data that the contract returned.
pub uninterp spec fn decoded_contract_state(bytes: Seq<u8>) -> Option<Seq<u8>>;

/// `prost::Message::decode` to a `QuerySmartContractStateResponse`.
#[verifier::external_body]
pub(crate) fn decode_contract_state(bytes: &Vec<u8>) -> (r: Result<Vec<u8>, DecodeError>)
    ensures
        match r {
            Ok(data) => decoded_contract_state(bytes@) == Some(data@),
            Err(_) => decoded_contract_state(bytes@) is None,
        },
{
    let res = QuerySmartContractStateResponse::decode(bytes.as_slice())?;
    Ok(res.data)
}

/// Whether a phrase is a mnemonic: what `bip32::Mnemonic::new` accepts with
/// the English word list.
pub uninterp spec fn mnemonic_valid(phrase: Seq<char>) -> bool;

/// The phrase of a mnemonic: its words with one space between two.
pub uninterp spec fn mnemonic_phrase(mnemonic: Mnemonic) -> Seq<char>;

/// The bytes of a seed.
pub uninterp spec fn seed_bytes(seed: Seed) -> Seq<u8>;

/// The bytes of the seed that a phrase gives with a password.
pub uninterp spec fn mnemonic_seed(phrase: Seq<char>, password: Seq<char>) -> Seq<u8>;

/// The steps of a derivation path.
pub uninterp spec fn path_steps(path: DerivationPath) -> Seq<u32>;

/// The steps of the derivation path that a string is parsed as; `None`
/// where the string is no derivation path.
pub uninterp spec fn parsed_path(path: Seq<char>) -> Option<Seq<u32>>;

/// The bytes of the private key at the end of a path from a seed; `None`
/// where no key can be derived along the path.
pub uninterp spec fn derived_key(seed: Seq<u8>, steps: Seq<u32>) -> Option<Seq<u8>>;

/// `bip32::Mnemonic::new` with the English word list: accepts a phrase of
/// 24 words of that list, with one space between two and a valid checksum.
/// The mnemonic holds these words joined by single spaces again, which is
/// the phrase as it was given. Whether it accepts depends on the phrase
/// alone.
#[verifier::external_body]
pub(crate) fn mnemonic_of(phrase: &str) -> (r: Result<Mnemonic, cosmrs::bip32::Error>)
    ensures
        r is Ok <==> mnemonic_valid(phrase@),
        r matches Ok(mnemonic) ==> mnemonic_phrase(mnemonic) == phrase@,
{
    Mnemonic::new(phrase, Language::English)
}

/// `bip32::Mnemonic::to_seed`: the seed that the phrase of the mnemonic
/// gives with the password.
#[verifier::external_body]
pub(crate) fn seed_of(mnemonic: &Mnemonic, password: &str) -> (r: Seed)
    ensures
        seed_bytes(r) == mnemonic_seed(mnemonic_phrase(*mnemonic), password@),
{
    mnemonic.to_seed(password)
}

/// `bip32::DerivationPath::from_str`. The outcome depends on the string
/// alone.
#[verifier::external_body]
pub(crate) fn derivation_path_of(path: &str) -> (r: Result<DerivationPath, cosmrs::bip32::Error>)
    ensures
        match r {
            Ok(parsed) => parsed_path(path@) == Some(path_steps(parsed)),
            Err(_) => parsed_path(path@) is None,
        },
{
    path.parse::<DerivationPath>()
}

/// `bip32::XPrv::derive_from_path`: the bytes of the private key at the end
/// of the path from the seed. The outcome depends on the seed and the path
/// alone.
#[verifier::external_body]
pub(crate) fn derive_key(seed: &Seed, path: &DerivationPath) -> (r: Result<
    Vec<u8>,
    cosmrs::bip32::Error,
>)
    ensures
        match r {
            Ok(key) => derived_key(seed_bytes(*seed), path_steps(*path)) == Some(key@),
            Err(_) => derived_key(seed_bytes(*seed), path_steps(*path)) is None,
        },
{
    Ok(XPrv::derive_from_path(seed, path)?.to_bytes().to_vec())
}

} // verus!
