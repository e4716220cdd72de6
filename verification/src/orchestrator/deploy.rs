//! The contract map: which code id and which address each named contract has.

use super::error::{ContractMapError, LookupFailure};
use crate::util::str_map::{entries_view, keys_distinct, StrMap};
use vstd::prelude::*;

verus! {

pub type ContractName = String;

/// What is known of one contract: the id of its code once stored, and its
/// address once instantiated. Either may be known without the other.
#[derive(Clone, Debug, PartialEq, Eq)]
pub struct DeployInfo {
    pub code_id: Option<u64>,
    pub address: Option<String>,
}

/// A `DeployInfo` as a plain value.
pub ghost struct DeployState {
    pub code_id: Option<u64>,
    pub address: Option<Seq<char>>,
}

impl View for DeployInfo {
    type V = DeployState;

    open spec fn view(&self) -> DeployState {
        DeployState {
            code_id: self.code_id,
            address: match self.address {
                Some(a) => Some(a@),
                None => None,
            },
        }
    }
}

/// The state of a contract of which nothing is known yet.
pub open spec fn unknown_contract() -> DeployState {
    DeployState { code_id: None, address: None }
}

/// What the map holds under `name`; a name without an entry counts as unknown.
pub open spec fn state_of(m: Map<Seq<char>, DeployState>, name: Seq<char>) -> DeployState {
    if m.contains_key(name) {
        m[name]
    } else {
        unknown_contract()
    }
}

/// The map after `code_id` was registered under `name`: only the code id of
/// that entry changes.
pub open spec fn with_code_id(m: Map<Seq<char>, DeployState>, name: Seq<char>, code_id: u64) -> Map<
    Seq<char>,
    DeployState,
> {
    m.insert(name, DeployState { code_id: Some(code_id), address: state_of(m, name).address })
}

/// The map after `address` was added under `name`: only the address of that
/// entry changes.
pub open spec fn with_address(
    m: Map<Seq<char>, DeployState>,
    name: Seq<char>,
    address: Seq<char>,
) -> Map<Seq<char>, DeployState> {
    m.insert(name, DeployState { code_id: state_of(m, name).code_id, address: Some(address) })
}

/// What a lookup of the code id of `name` gives: `NotStored` where the map
/// has no entry under the name, or an entry without a code id.
pub open spec fn code_id_lookup(m: Map<Seq<char>, DeployState>, name: Seq<char>) -> Result<
    u64,
    LookupFailure,
> {
    match state_of(m, name).code_id {
        Some(id) => Ok(id),
        None => Err(LookupFailure::NotStored),
    }
}

/// What a lookup of the address of `name` gives: `NotStored` where the map
/// has no entry under the name, `NotDeployed` where the entry has no address.
pub open spec fn address_lookup(m: Map<Seq<char>, DeployState>, name: Seq<char>) -> Result<
    Seq<char>,
    LookupFailure,
> {
    if !m.contains_key(name) {
        Err(LookupFailure::NotStored)
    } else {
        match m[name].address {
            Some(address) => Ok(address),
            None => Err(LookupFailure::NotDeployed),
        }
    }
}

/// Maps each contract name to its deploy info.
#[derive(Clone, Debug)]
pub struct ContractMap {
    map: StrMap<DeployInfo>,
}

impl View for ContractMap {
    type V = Map<Seq<char>, DeployState>;

    closed spec fn view(&self) -> Map<Seq<char>, DeployState> {
        self.map@
    }
}

impl ContractMap {
    /// Creates a contract map from configured deploy infos. Of two entries
    /// with one name the later one stands.
    pub fn new(contract_deploys: Vec<(ContractName, DeployInfo)>) -> (r: Self)
        ensures
            r@ == entries_view(contract_deploys@),
    {
        ContractMap { map: StrMap::from_entries(contract_deploys) }
    }

    /// Registers a code id under a contract name. An address known under
    /// that name stays.
    pub fn register_contract(&mut self, name: &str, code_id: u64)
        ensures
            final(self)@ == with_code_id(old(self)@, name@, code_id),
    {
        let address = match self.map.get(name) {
            Some(info) => info.address.clone(),
            None => None,
        };
        self.map.insert(name.to_owned(), DeployInfo { code_id: Some(code_id), address });
    }

    /// Returns the stored code id of a contract.
    ///
    /// Fails with `NotStored` where the map has no entry under the name, or
    /// an entry without a code id.
    pub fn code_id(&self, name: &str) -> (r: Result<u64, ContractMapError>)
        ensures
            match r {
                Ok(id) => code_id_lookup(self@, name@) == Ok::<u64, LookupFailure>(id),
                Err(e) => code_id_lookup(self@, name@) == Err::<u64, LookupFailure>(e.failure())
                    && e.contract() == name@,
            },
    {
        match self.map.get(name) {
            Some(info) => match info.code_id {
                Some(id) => Ok(id),
                None => Err(ContractMapError::NotStored { name: name.to_owned() }),
            },
            None => Err(ContractMapError::NotStored { name: name.to_owned() }),
        }
    }

    /// Returns the address of a contract.
    ///
    /// Fails with `NotStored` where the map has no entry under the name, and
    /// with `NotDeployed` where the entry has no address.
    pub fn address(&self, name: &str) -> (r: Result<String, ContractMapError>)
        ensures
            match r {
                Ok(a) => address_lookup(self@, name@) == Ok::<Seq<char>, LookupFailure>(a@),
                Err(e) => address_lookup(self@, name@) == Err::<Seq<char>, LookupFailure>(
                    e.failure(),
                ) && e.contract() == name@,
            },
    {
        match self.map.get(name) {
            Some(info) => match &info.address {
                Some(a) => Ok(a.clone()),
                None => Err(ContractMapError::NotDeployed { name: name.to_owned() }),
            },
            None => Err(ContractMapError::NotStored { name: name.to_owned() }),
        }
    }

    /// Registers the address of a contract, whether or not its code id is
    /// known. A code id known under that name stays. Never fails.
    pub fn add_address(&mut self, name: &str, address: &str) -> (r: Result<(), ContractMapError>)
        ensures
            r is Ok,
            final(self)@ == with_address(old(self)@, name@, address@),
    {
        let code_id = match self.map.get(name) {
            Some(info) => info.code_id,
            None => None,
        };
        self.map.insert(
            name.to_owned(),
            DeployInfo { code_id, address: Some(address.to_owned()) },
        );
        Ok(())
    }

    /// Returns the current deploy infos, one entry for each name.
    pub fn deploy_info(&self) -> (r: &Vec<(ContractName, DeployInfo)>)
        ensures
            keys_distinct(r@),
            entries_view(r@) == self@,
    {
        self.map.entries()
    }
}

/// A name that was never registered is not stored: both lookups fail with
/// `NotStored`.
pub proof fn lemma_unregistered_is_not_stored(m: Map<Seq<char>, DeployState>, name: Seq<char>)
    requires
        !m.contains_key(name),
    ensures
        code_id_lookup(m, name) == Err::<u64, LookupFailure>(LookupFailure::NotStored),
        address_lookup(m, name) == Err::<Seq<char>, LookupFailure>(LookupFailure::NotStored),
{
}

/// After a code id was registered under a name without an address, the
/// lookup of the code id gives that id, and the lookup of the address fails
/// with `NotDeployed`.
pub proof fn lemma_registered_is_not_deployed(
    m: Map<Seq<char>, DeployState>,
    name: Seq<char>,
    code_id: u64,
)
    requires
        address_lookup(m, name) is Err,
    ensures
        code_id_lookup(with_code_id(m, name, code_id), name) == Ok::<u64, LookupFailure>(code_id),
        address_lookup(with_code_id(m, name, code_id), name) == Err::<Seq<char>, LookupFailure>(
            LookupFailure::NotDeployed,
        ),
{
}

/// The two fields of an entry are independent: after an address was added
/// and a code id registered under one name, in either order, both lookups
/// give what was put in.
pub proof fn lemma_fields_are_independent(
    m: Map<Seq<char>, DeployState>,
    name: Seq<char>,
    address: Seq<char>,
    code_id: u64,
)
    ensures
        code_id_lookup(with_code_id(with_address(m, name, address), name, code_id), name) == Ok::<
            u64,
            LookupFailure,
        >(code_id),
        address_lookup(with_code_id(with_address(m, name, address), name, code_id), name) == Ok::<
            Seq<char>,
            LookupFailure,
        >(address),
        code_id_lookup(with_address(with_code_id(m, name, code_id), name, address), name) == Ok::<
            u64,
            LookupFailure,
        >(code_id),
        address_lookup(with_address(with_code_id(m, name, code_id), name, address), name) == Ok::<
            Seq<char>,
            LookupFailure,
        >(address),
{
}

/// Registering a code id again keeps the address, and adding an address
/// again keeps the code id.
pub proof fn lemma_upsert_keeps_other_field(
    m: Map<Seq<char>, DeployState>,
    name: Seq<char>,
    address: Seq<char>,
    code_id: u64,
)
    ensures
        address_lookup(m, name) is Ok ==> address_lookup(with_code_id(m, name, code_id), name)
            == address_lookup(m, name),
        code_id_lookup(with_address(m, name, address), name) == code_id_lookup(m, name),
{
}

/// Registering under one name changes nothing under another.
pub proof fn lemma_other_names_untouched(
    m: Map<Seq<char>, DeployState>,
    name: Seq<char>,
    other: Seq<char>,
    address: Seq<char>,
    code_id: u64,
)
    requires
        other != name,
    ensures
        code_id_lookup(with_code_id(m, name, code_id), other) == code_id_lookup(m, other),
        address_lookup(with_code_id(m, name, code_id), other) == address_lookup(m, other),
        code_id_lookup(with_address(m, name, address), other) == code_id_lookup(m, other),
        address_lookup(with_address(m, name, address), other) == address_lookup(m, other),
{
}

} // verus!
