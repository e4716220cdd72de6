//! Errors of the chain client.

use super::chain_res::ChainResponse;
use super::sdk::{decode_error_text, encode_error_text, report_text};
use cosmrs::ErrorReport;
use prost::{DecodeError, EncodeError};
use vstd::prelude::*;

verus! {

/// Why an interaction with the chain failed.
#[derive(Debug, PartialEq, Eq)]
pub enum ClientError {
    /// An endpoint of the configuration is no valid URL.
    InvalidURL { message: String },
    /// The chain knows no account with this id.
    AccountId { id: String },
    /// The signing key is no key, has no account or could not sign.
    Crypto { message: String },
    /// The fee denomination of the configuration is malformed.
    Denom { name: String },
    /// The chain id of the configuration is malformed.
    ChainId { chain_id: String },
    /// The mnemonic phrase is no valid mnemonic.
    Mnemonic,
    /// No key can be derived along the derivation path.
    DerviationPath,
    /// The admin address is no valid address.
    AdminAddress,
    /// The instantiate permissions name an invalid address.
    InstantiatePerms { message: String },
    /// A message could not be encoded.
    ProtoEncoding { message: String },
    /// An answer of the chain could not be decoded.
    ProtoDecoding { message: String },
    /// The chain rejected the request; the response says why.
    CosmosSdk { res: ChainResponse },
    /// The gRPC transport failed.
    GRPC { message: String },
    /// The RPC transport failed.
    RPC { message: String },
}

impl ClientError {
    /// The error of a failed cryptographic operation, with its cause.
    pub fn crypto(e: ErrorReport) -> (r: ClientError)
        ensures
            r is Crypto,
    {
        ClientError::Crypto { message: report_text(&e) }
    }

    /// The error of a failed encoding, with its cause.
    pub fn proto_encoding(e: ErrorReport) -> (r: ClientError)
        ensures
            r is ProtoEncoding,
    {
        ClientError::ProtoEncoding { message: report_text(&e) }
    }

    /// The error of a failed protobuf encoding, with its cause.
    pub fn prost_proto_en(e: EncodeError) -> (r: ClientError)
        ensures
            r is ProtoEncoding,
    {
        ClientError::ProtoEncoding { message: encode_error_text(&e) }
    }

    /// The error of a failed protobuf decoding, with its cause.
    pub fn prost_proto_de(e: DecodeError) -> (r: ClientError)
        ensures
            r is ProtoDecoding,
    {
        ClientError::ProtoDecoding { message: decode_error_text(&e) }
    }
}

} // verus!
