//! Signing keys: how they are configured, and how the key that signs is
//! derived from a mnemonic.

use crate::client::error::ClientError;
use crate::client::sdk::{
    account_address_of, account_id_of, account_id_text, account_text, derivation_path_of,
    derive_key, derived_key, mnemonic_of, mnemonic_seed, mnemonic_valid, parsed_path, public_key,
    public_key_of, seed_of,
};
use cosmrs::AccountId;
use vstd::prelude::*;

verus! {

/// A signing key by name.
#[derive(Clone, Debug, PartialEq, Eq)]
pub struct SigningKey {
    /// human readable key name
    pub name: String,
    /// private key associated with `name`
    pub key: Key,
}

/// Where the private key comes from.
#[derive(Clone, Debug, PartialEq, Eq)]
pub enum Key {
    /// The mnemonic words of the private key. Not for mainnet.
    Mnemonic(String),
    /// The entry of the operating system's keyring that holds the mnemonic.
    Keyring(KeyringParams),
}

/// An entry of the operating system's keyring.
#[derive(Clone, Debug, PartialEq, Eq)]
pub struct KeyringParams {
    pub service: String,
    pub key_name: String,
}

/// A secp256k1 private key, as the bytes of its scalar.
#[derive(Clone, PartialEq, Eq)]
pub struct PrivateKey {
    pub bytes: Vec<u8>,
}

impl SigningKey {
    /// The mnemonic, where the key is configured by one.
    pub fn mnemonic(&self) -> (r: Option<&String>)
        ensures
            r == match self.key {
                Key::Mnemonic(phrase) => Some(&phrase),
                Key::Keyring(_) => None,
            },
    {
        match &self.key {
            Key::Mnemonic(phrase) => Some(phrase),
            Key::Keyring(_) => None,
        }
    }

    /// The keyring entry, where the key is kept in the keyring.
    pub fn keyring(&self) -> (r: Option<&KeyringParams>)
        ensures
            r == match self.key {
                Key::Mnemonic(_) => None,
                Key::Keyring(params) => Some(&params),
            },
    {
        match &self.key {
            Key::Mnemonic(_) => None,
            Key::Keyring(params) => Some(params),
        }
    }
}

/// The derivation path of the Cosmos Hub.
pub open spec fn cosmos_path() -> Seq<char> {
    "m/44'/118'/0'/0/0"@
}

/// The bytes of the key that a mnemonic gives: the key at the end of the
/// derivation path of the Cosmos Hub from the seed that the phrase gives
/// with an empty password. `Mnemonic` where the phrase is no valid
/// mnemonic, `DerviationPath` where no key can be derived along the path.
pub open spec fn mnemonic_key(phrase: Seq<char>) -> Result<Seq<u8>, ClientError> {
    if !mnemonic_valid(phrase) {
        Err(ClientError::Mnemonic)
    } else {
        match parsed_path(cosmos_path()) {
            None => Err(ClientError::DerviationPath),
            Some(steps) => match derived_key(mnemonic_seed(phrase, ""@), steps) {
                Some(key) => Ok(key),
                None => Err(ClientError::DerviationPath),
            },
        }
    }
}

/// Derives the key that signs from a mnemonic, along the derivation path of
/// the Cosmos Hub, `m/44'/118'/0'/0/0`, with an empty password.
///
/// Fails with `Mnemonic` exactly where the phrase is no valid mnemonic, and
/// with `DerviationPath` exactly where no key can be derived along the
/// path.
pub fn mnemonic_to_signing_key(mnemonic: &str) -> (r: Result<PrivateKey, ClientError>)
    ensures
        match r {
            Ok(key) => mnemonic_key(mnemonic@) == Ok::<_, ClientError>(key.bytes@),
            Err(e) => mnemonic_key(mnemonic@) == Err::<Seq<u8>, _>(e),
        },
{
    let phrase = match mnemonic_of(mnemonic) {
        Ok(phrase) => phrase,
        Err(_) => {
            return Err(ClientError::Mnemonic);
        },
    };
    let seed = seed_of(&phrase, "");
    let path = match derivation_path_of("m/44'/118'/0'/0/0") {
        Ok(path) => path,
        Err(_) => {
            return Err(ClientError::DerviationPath);
        },
    };
    match derive_key(&seed, &path) {
        Ok(bytes) => Ok(PrivateKey { bytes }),
        Err(_) => Err(ClientError::DerviationPath),
    }
}

/// The address of the account of the private key with the given bytes, in
/// Bech32 under the given prefix; `None` where the bytes are no private key
/// or the prefix is refused.
pub open spec fn key_address(key: Seq<u8>, prefix: Seq<char>) -> Option<Seq<char>> {
    match public_key_of(key) {
        Some(public) => account_address_of(public, prefix),
        None => None,
    }
}

/// Whether the key has an account under the prefix.
pub open spec fn has_account(key: Seq<u8>, prefix: Seq<char>) -> bool {
    key_address(key, prefix) is Some
}

/// The account of the key on a chain with the given address prefix: the
/// account whose address is `key_address`. Fails with `Crypto` exactly
/// where the key has no account under the prefix.
pub fn to_account(key: &PrivateKey, prefix: &str) -> (r: Result<AccountId, ClientError>)
    ensures
        match r {
            Ok(id) => key_address(key.bytes@, prefix@) == Some(account_id_text(id)),
            Err(e) => e is Crypto && !has_account(key.bytes@, prefix@),
        },
{
    let public = match public_key(&key.bytes) {
        Ok(public) => public,
        Err(e) => {
            return Err(ClientError::crypto(e));
        },
    };
    match account_id_of(&public, prefix) {
        Ok(id) => Ok(id),
        Err(e) => Err(ClientError::crypto(e)),
    }
}

/// The address of the key's account, in Bech32, on a chain with the given
/// address prefix. Fails with `Crypto` exactly where the key has no account
/// under the prefix.
pub fn account_address(key: &PrivateKey, prefix: &str) -> (r: Result<String, ClientError>)
    ensures
        match r {
            Ok(address) => key_address(key.bytes@, prefix@) == Some(address@),
            Err(e) => e is Crypto && !has_account(key.bytes@, prefix@),
        },
{
    match to_account(key, prefix) {
        Ok(id) => Ok(account_text(&id)),
        Err(e) => Err(e),
    }
}

} // verus!
