//! The configuration of a chain, made of what the chain registry lists for
//! it.

use super::cfg::ChainCfg;
use super::error::ConfigError;
use crate::util::decimal::{Decimal, DecimalView};
use crate::util::text::{contains, spec_contains};
use rand::rngs::ThreadRng;
use rand::Rng;
use std::str::FromStr;
use tendermint_rpc::error::ErrorDetail;
use tendermint_rpc::Url;
use vstd::prelude::*;

verus! {

/// `rand::rngs::ThreadRng`: the random number generator of a thread.
#[verifier::external_type_specification]
#[verifier::external_body]
pub struct ExThreadRng(ThreadRng);

/// A token in which the fees of a chain can be paid.
#[derive(Clone, Debug, PartialEq, Eq)]
pub struct FeeToken {
    pub denom: String,
    pub average_gas_price: Decimal,
}

/// What the chain registry lists for a chain.
#[derive(Clone, Debug, PartialEq, Eq)]
pub struct RegistryChain {
    pub chain_id: String,
    pub bech32_prefix: String,
    pub fee_tokens: Vec<FeeToken>,
    /// The addresses of the chain's RPC endpoints.
    pub rpc: Vec<String>,
    /// The addresses of the chain's gRPC endpoints.
    pub grpc: Vec<String>,
}

/// What a string parses to as the URL of an RPC endpoint: the URL as it is
/// written out again; or, where it is none, whether that is because its
/// scheme is not supported.
pub uninterp spec fn url_parse(url: Seq<char>) -> Result<Seq<char>, bool>;

/// The outcome of parsing a URL.
pub enum UrlParse {
    /// The URL, written out again.
    Url(String),
    /// The scheme of the URL is not supported.
    UnsupportedScheme { message: String },
    /// The string is no URL for another reason.
    Invalid { message: String },
}

/// `tendermint_rpc::Url::from_str`, and `to_string` of the URL: parses a
/// URL with one of the schemes `http`, `https`, `tcp`, `ws` and `wss`. The
/// outcome depends on the string alone.
#[verifier::external_body]
fn parse_rpc_url(url: &str) -> (r: UrlParse)
    ensures
        match r {
            UrlParse::Url(text) => url_parse(url@) == Ok::<_, bool>(text@),
            UrlParse::UnsupportedScheme { .. } => url_parse(url@) == Err::<Seq<char>, _>(true),
            UrlParse::Invalid { .. } => url_parse(url@) == Err::<Seq<char>, _>(false),
        },
{
    match Url::from_str(url) {
        Ok(u) => UrlParse::Url(u.to_string()),
        Err(e) => match e.detail() {
            ErrorDetail::UnsupportedScheme(_) => UrlParse::UnsupportedScheme {
                message: e.to_string(),
            },
            _ => UrlParse::Invalid { message: e.to_string() },
        },
    }
}

/// `rand::thread_rng`: the random number generator of the thread.
#[verifier::external_body]
fn thread_rng() -> ThreadRng {
    rand::thread_rng()
}

/// `rand::Rng::gen_range` on the range from 0 up to `n`: a number below
/// `n`.
#[verifier::external_body]
fn gen_index(rng: &mut ThreadRng, n: usize) -> (i: usize)
    requires
        n > 0,
    ensures
        i < n,
{
    rng.gen_range(0..n)
}

/// The endpoint that is configured for an address: the address as a URL,
/// where it is one; the address with `https://` before it, where it is no
/// URL for want of a supported scheme and holds no `://`.
pub open spec fn endpoint_of(url: Seq<char>) -> Option<Seq<char>> {
    match url_parse(url) {
        Ok(text) => Some(text),
        Err(unsupported_scheme) => {
            if unsupported_scheme && !spec_contains(url, "://"@) {
                Some("https://"@ + url)
            } else {
                None
            }
        },
    }
}

/// Parses the address of an endpoint to make sure that it is a valid URL.
/// An address without a scheme gets the scheme `https`.
pub fn parse_url(url: &str) -> (r: Result<String, ConfigError>)
    ensures
        match r {
            Ok(text) => endpoint_of(url@) == Some(text@),
            Err(e) => endpoint_of(url@) is None && e is InvalidURL,
        },
{
    match parse_rpc_url(url) {
        UrlParse::Url(text) => Ok(text),
        UrlParse::UnsupportedScheme { message } => {
            if !contains(url, "://") {
                Ok("https://".to_owned().concat(url))
            } else {
                Err(ConfigError::InvalidURL { message })
            }
        },
        UrlParse::Invalid { message } => Err(ConfigError::InvalidURL { message }),
    }
}

/// The gas adjustment of a chain that is configured from the registry: 1.5.
pub open spec fn registry_gas_adjustment() -> DecimalView {
    DecimalView { units: 15, scale: 1 }
}

/// Whether `cfg` is the configuration made of the registry's chain with the
/// RPC endpoint at `rpc_index` and the gRPC endpoint at `grpc_index`.
pub open spec fn is_chain_cfg(
    cfg: ChainCfg,
    chain: RegistryChain,
    rpc_index: int,
    grpc_index: int,
) -> bool {
    &&& chain.fee_tokens@.len() > 0
    &&& 0 <= rpc_index < chain.rpc@.len()
    &&& 0 <= grpc_index < chain.grpc@.len()
    &&& cfg.denom@ == chain.fee_tokens@[0].denom@
    &&& cfg.prefix@ == chain.bech32_prefix@
    &&& cfg.chain_id@ == chain.chain_id@
    &&& cfg.gas_prices@ == chain.fee_tokens@[0].average_gas_price@
    &&& cfg.gas_adjustment@ == registry_gas_adjustment()
    &&& endpoint_of(chain.rpc@[rpc_index]@) == Some(cfg.rpc_endpoint@)
    &&& endpoint_of(chain.grpc@[grpc_index]@) == Some(cfg.grpc_endpoint@)
}

/// Whether `r` is what the registry's chain with the endpoints at the given
/// places gives: `MissingFee` where no fee token is listed; else
/// `MissingRPC` or `MissingGRPC` where the list has no endpoint at the
/// place; else `InvalidURL` where one of the two addresses is no endpoint;
/// else the configuration.
pub open spec fn is_chain_cfg_outcome(
    r: Result<ChainCfg, ConfigError>,
    chain_id: Seq<char>,
    chain: RegistryChain,
    rpc_index: int,
    grpc_index: int,
) -> bool {
    if chain.fee_tokens@.len() == 0 {
        r matches Err(ConfigError::MissingFee { chain_id: id }) && id@ == chain_id
    } else if rpc_index >= chain.rpc@.len() {
        r matches Err(ConfigError::MissingRPC { chain_id: id }) && id@ == chain_id
    } else if grpc_index >= chain.grpc@.len() {
        r matches Err(ConfigError::MissingGRPC { chain_id: id }) && id@ == chain_id
    } else if endpoint_of(chain.rpc@[rpc_index]@) is None || endpoint_of(
        chain.grpc@[grpc_index]@,
    ) is None {
        r matches Err(ConfigError::InvalidURL { .. })
    } else {
        r matches Ok(cfg) && is_chain_cfg(cfg, chain, rpc_index, grpc_index)
    }
}

/// Makes the configuration of a chain of what the registry lists for it,
/// with the endpoints at the given places of the lists.
pub fn chain_cfg(chain_id: &str, chain: &RegistryChain, rpc_index: usize, grpc_index: usize) -> (r:
    Result<ChainCfg, ConfigError>)
    ensures
        is_chain_cfg_outcome(r, chain_id@, *chain, rpc_index as int, grpc_index as int),
{
    if chain.fee_tokens.len() == 0 {
        return Err(ConfigError::MissingFee { chain_id: chain_id.to_owned() });
    }
    let fee_token = &chain.fee_tokens[0];
    if rpc_index >= chain.rpc.len() {
        return Err(ConfigError::MissingRPC { chain_id: chain_id.to_owned() });
    }
    if grpc_index >= chain.grpc.len() {
        return Err(ConfigError::MissingGRPC { chain_id: chain_id.to_owned() });
    }
    let rpc_endpoint = match parse_url(chain.rpc[rpc_index].as_str()) {
        Ok(endpoint) => endpoint,
        Err(e) => {
            return Err(e);
        },
    };
    let grpc_endpoint = match parse_url(chain.grpc[grpc_index].as_str()) {
        Ok(endpoint) => endpoint,
        Err(e) => {
            return Err(e);
        },
    };
    let gas_adjustment = Decimal::new(15, 1).unwrap();
    Ok(
        ChainCfg {
            denom: fee_token.denom.clone(),
            prefix: chain.bech32_prefix.clone(),
            chain_id: chain.chain_id.clone(),
            gas_prices: fee_token.average_gas_price,
            gas_adjustment,
            rpc_endpoint,
            grpc_endpoint,
        },
    )
}

/// Whether `r` is what the registry's answer may give: `ChainID` where the
/// registry knows no such chain; else `MissingFee`, `MissingRPC` or
/// `MissingGRPC` where it lists no fee token or no endpoint of the kind;
/// else what one of the RPC endpoints and one of the gRPC endpoints give.
pub open spec fn is_chain_info_outcome(
    r: Result<ChainCfg, ConfigError>,
    chain_id: Seq<char>,
    chain: Option<RegistryChain>,
) -> bool {
    match chain {
        None => r matches Err(ConfigError::ChainID { chain_id: id }) && id@ == chain_id,
        Some(c) => {
            if c.fee_tokens@.len() == 0 {
                r matches Err(ConfigError::MissingFee { chain_id: id }) && id@ == chain_id
            } else if c.rpc@.len() == 0 {
                r matches Err(ConfigError::MissingRPC { chain_id: id }) && id@ == chain_id
            } else if c.grpc@.len() == 0 {
                r matches Err(ConfigError::MissingGRPC { chain_id: id }) && id@ == chain_id
            } else {
                exists|i: int, j: int|
                    0 <= i < c.rpc@.len() && 0 <= j < c.grpc@.len() && is_chain_cfg_outcome(
                        r,
                        chain_id,
                        c,
                        i,
                        j,
                    )
            }
        },
    }
}

/// Makes the configuration of the chain `chain_id` of what the registry
/// answered for it, with one of the RPC endpoints and one of the gRPC
/// endpoints, picked at random.
pub fn chain_info(chain_id: String, chain: Option<RegistryChain>) -> (r: Result<
    ChainCfg,
    ConfigError,
>)
    ensures
        is_chain_info_outcome(r, chain_id@, chain),
{
    let chain = match chain {
        Some(chain) => chain,
        None => {
            return Err(ConfigError::ChainID { chain_id });
        },
    };
    let mut rng = thread_rng();
    let rpc_index = if chain.rpc.len() > 0 {
        gen_index(&mut rng, chain.rpc.len())
    } else {
        0
    };
    let grpc_index = if chain.grpc.len() > 0 {
        gen_index(&mut rng, chain.grpc.len())
    } else {
        0
    };
    let r = chain_cfg(chain_id.as_str(), &chain, rpc_index, grpc_index);
    assert(is_chain_cfg_outcome(r, chain_id@, chain, rpc_index as int, grpc_index as int));
    r
}

} // verus!
