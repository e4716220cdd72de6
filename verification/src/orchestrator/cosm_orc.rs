//! The orchestrator: stores contracts and runs their operations, keeping
//! the contract map and the gas profile up to date.
//!
//! Every operation has two halves with the round trip to the chain between
//! them. The first half looks up what the operation needs in the contract
//! map and fails before anything is sent where the contract is not in the
//! state that the operation needs. The second half takes the outcome of the
//! round trip: on success it updates the contract map and the gas profile,
//! on failure it leaves both as they are.

use super::deploy::{
    address_lookup, code_id_lookup, with_address, with_code_id, ContractMap, DeployInfo,
};
use super::error::{LookupFailure, ProcessError, StoreError};
use super::gas_profiler::{
    gas_report_of, instrumented, CallLoc, CommandType, GasProfiler, Report, ReportView,
};
use crate::client::chain_res::{
    ChainResponse, ExecResponse, InstantiateResponse, MigrateResponse, QueryResponse,
    StoreCodeResponse,
};
use crate::client::error::ClientError;
use crate::util::str_map::entries_view;
use crate::util::text::matches_at;
use vstd::prelude::*;

verus! {

/// Whether `s` ends with `suffix`.
pub open spec fn ends_with(s: Seq<char>, suffix: Seq<char>) -> bool {
    suffix.len() <= s.len() && s.skip(s.len() - suffix.len()) == suffix
}

/// `s` without `suffix` at its end, as often as it stands there.
pub open spec fn without_suffix(s: Seq<char>, suffix: Seq<char>) -> Seq<char>
    decreases s.len(),
{
    if suffix.len() > 0 && ends_with(s, suffix) {
        without_suffix(s.take(s.len() - suffix.len()), suffix)
    } else {
        s
    }
}

/// The name under which the contract of a wasm file is kept: the stem of
/// the file's name, without the architecture that an optimizer appends to
/// it after a hyphen.
pub open spec fn contract_name_of(file_stem: Seq<char>, arch: Seq<char>) -> Seq<char> {
    without_suffix(file_stem, "-"@ + arch)
}

/// Whether the first `len` characters of `s` end with `suffix`.
fn prefix_ends_with(s: &str, len: usize, suffix: &str) -> (b: bool)
    requires
        len <= s@.len() <= usize::MAX,
    ensures
        b == ends_with(s@.take(len as int), suffix@),
{
    let m = suffix.unicode_len();
    if m > len {
        return false;
    }
    assert(s@.subrange(len - m, len as int) =~= s@.take(len as int).skip(len - m));
    matches_at(s, suffix, len - m)
}

/// The name under which the contract of a wasm file is kept.
pub fn contract_name(file_stem: &str, arch: &str) -> (name: String)
    ensures
        name@ == contract_name_of(file_stem@, arch@),
{
    let suffix = String::from_str("-").concat(arch);
    let m = suffix.as_str().unicode_len();
    proof {
        reveal_strlit("-");
        assert(suffix@.len() == 1 + arch@.len());
    }
    let mut len = file_stem.unicode_len();
    assert(file_stem@.take(len as int) =~= file_stem@);
    while prefix_ends_with(file_stem, len, suffix.as_str())
        invariant
            len <= file_stem@.len() <= usize::MAX,
            m == suffix@.len(),
            m > 0,
            without_suffix(file_stem@.take(len as int), suffix@) == without_suffix(
                file_stem@,
                suffix@,
            ),
        decreases len,
    {
        proof {
            let s = file_stem@.take(len as int);
            assert(s.take(s.len() - suffix@.len()) =~= file_stem@.take(len - m));
        }
        len = len - m;
    }
    file_stem.substring_char(0, len).to_owned()
}

/// Whether `i` is the place of the last point of a file name.
pub open spec fn is_last_point(name: Seq<char>, i: int) -> bool {
    &&& 0 <= i < name.len()
    &&& name[i] == '.'
    &&& forall|j: int| i < j < name.len() ==> name[j] != '.'
}

/// The stem of the name of a wasm file: what stands before the last point
/// of a file name whose extension, what stands after it, is exactly `wasm`.
/// `None` for every other file name: one without a point, one whose only
/// point is its first character, and one with another extension.
pub open spec fn wasm_stem_of(file_name: Seq<char>) -> Option<Seq<char>> {
    if exists|i: int| is_last_point(file_name, i) {
        let i = choose|i: int| is_last_point(file_name, i);
        if i > 0 && file_name.skip(i + 1) == "wasm"@ {
            Some(file_name.take(i))
        } else {
            None
        }
    } else {
        None
    }
}

/// The name under which the contract of a file is kept, for a wasm file;
/// `None` for every other file, which is not stored.
pub open spec fn wasm_contract_name_of(file_name: Seq<char>, arch: Seq<char>) -> Option<
    Seq<char>,
> {
    match wasm_stem_of(file_name) {
        Some(stem) => Some(contract_name_of(stem, arch)),
        None => None,
    }
}

/// The stem of the name of a wasm file; `None` for every other file name.
pub fn wasm_file_stem(file_name: &str) -> (r: Option<String>)
    ensures
        match r {
            Some(stem) => wasm_stem_of(file_name@) == Some(stem@),
            None => wasm_stem_of(file_name@) is None,
        },
{
    let n = file_name.unicode_len();
    let mut i: usize = n;
    while i > 0 && file_name.get_char(i - 1) != '.'
        invariant
            0 <= i <= n,
            n == file_name@.len(),
            forall|j: int| i <= j < n ==> file_name@[j] != '.',
        decreases i,
    {
        i -= 1;
    }
    if i == 0 {
        assert forall|k: int| !is_last_point(file_name@, k) by {}
        return None;
    }
    let point = i - 1;
    proof {
        assert(is_last_point(file_name@, point as int));
        let chosen = choose|k: int| is_last_point(file_name@, k);
        if chosen < point {
            assert(file_name@[point as int] != '.');
        } else if point < chosen {
            assert(file_name@[chosen] != '.');
        }
        reveal_strlit("wasm");
        assert(file_name@.subrange(i as int, n as int) =~= file_name@.skip(point + 1));
    }
    if point == 0 || n - i != 4 || !matches_at(file_name, "wasm", i) {
        return None;
    }
    Some(file_name.substring_char(0, point).to_owned())
}

/// The name under which the contract of a file is kept, for a wasm file:
/// the stem of the file's name without the architecture. `None` for every
/// other file, which is not stored.
pub fn wasm_contract_name(file_name: &str, arch: &str) -> (r: Option<String>)
    ensures
        match r {
            Some(name) => wasm_contract_name_of(file_name@, arch@) == Some(name@),
            None => wasm_contract_name_of(file_name@, arch@) is None,
        },
{
    match wasm_file_stem(file_name) {
        Some(stem) => Some(contract_name(stem.as_str(), arch)),
        None => None,
    }
}

/// Stores contracts and runs their operations against a chain.
#[derive(Clone, Debug)]
pub struct CosmOrc {
    pub contract_map: ContractMap,
    pub gas_profiler: Option<GasProfiler>,
}

/// The gas profile after an operation, where there is a profiler.
pub open spec fn profiled(
    profile: Option<ReportView>,
    contract: Seq<char>,
    op_name: Seq<char>,
    op_type: CommandType,
    response: ChainResponse,
    caller_loc: CallLoc,
) -> Option<ReportView> {
    match profile {
        Some(report) => Some(
            instrumented(report, contract, op_name, op_type, gas_report_of(response, caller_loc)),
        ),
        None => None,
    }
}

/// What the orchestrator makes of a failed lookup.
pub open spec fn lookup_error(e: ProcessError, failure: LookupFailure, name: Seq<char>) -> bool {
    e matches ProcessError::ContractMapError(inner) && inner.failure() == failure
        && inner.contract() == name
}

impl CosmOrc {
    /// The gas profile; `None` where the orchestrator has no profiler.
    pub open spec fn profile(&self) -> Option<ReportView> {
        match self.gas_profiler {
            Some(profiler) => Some(profiler@),
            None => None,
        }
    }

    /// Creates an orchestrator that knows the configured contracts, with an
    /// empty gas profile if it is to profile, and without one if not.
    pub fn new(contract_deploy_info: Vec<(String, DeployInfo)>, use_gas_profiler: bool) -> (orc:
        Self)
        ensures
            orc.contract_map@ == entries_view(contract_deploy_info@),
            orc.profile() == (if use_gas_profiler {
                Some(ReportView::empty())
            } else {
                None
            }),
    {
        let gas_profiler = if use_gas_profiler {
            Some(GasProfiler::new())
        } else {
            None
        };
        CosmOrc { contract_map: ContractMap::new(contract_deploy_info), gas_profiler }
    }

    /// Records an operation in the gas profile, where there is a profiler.
    fn instrument(
        &mut self,
        contract: String,
        op_name: String,
        op_type: CommandType,
        response: &ChainResponse,
        caller_loc: &CallLoc,
    )
        ensures
            final(self).contract_map == old(self).contract_map,
            final(self).profile() == profiled(
                old(self).profile(),
                contract@,
                op_name@,
                op_type,
                *response,
                *caller_loc,
            ),
    {
        match self.gas_profiler.take() {
            Some(mut profiler) => {
                profiler.instrument(contract, op_name, op_type, response, caller_loc);
                self.gas_profiler = Some(profiler);
            },
            None => {},
        }
    }

    /// Takes the outcome of storing the wasm file with the given stem, built
    /// for the given architecture. On success the code id is registered
    /// under the contract's name and the operation is profiled under the
    /// label `Store`. On failure nothing changes.
    pub fn store_contracts(
        &mut self,
        file_stem: &str,
        arch: &str,
        outcome: Result<StoreCodeResponse, ClientError>,
        caller_loc: &CallLoc,
    ) -> (r: Result<StoreCodeResponse, StoreError>)
        ensures
            match outcome {
                Ok(res) => r == Ok::<_, StoreError>(res) && final(self).contract_map@
                    == with_code_id(
                    old(self).contract_map@,
                    contract_name_of(file_stem@, arch@),
                    res.code_id,
                ) && final(self).profile() == profiled(
                    old(self).profile(),
                    contract_name_of(file_stem@, arch@),
                    "Store"@,
                    CommandType::Store,
                    res.res,
                    *caller_loc,
                ),
                Err(e) => r == Err::<StoreCodeResponse, _>(StoreError::ClientError(e))
                    && final(self).contract_map@ == old(self).contract_map@
                    && final(self).profile() == old(self).profile(),
            },
    {
        let res = match outcome {
            Ok(res) => res,
            Err(e) => {
                return Err(StoreError::ClientError(e));
            },
        };
        let contract = contract_name(file_stem, arch);
        self.contract_map.register_contract(contract.as_str(), res.code_id);
        self.instrument(
            contract,
            String::from_str("Store"),
            CommandType::Store,
            &res.res,
            caller_loc,
        );
        Ok(res)
    }

    /// The code id to instantiate the contract with. Fails with `NotStored`
    /// where the contract map knows no code id under the name: nothing is to
    /// be sent then.
    pub fn instantiate(&self, contract_name: &str) -> (r: Result<u64, ProcessError>)
        ensures
            match r {
                Ok(code_id) => code_id_lookup(self.contract_map@, contract_name@) == Ok::<
                    _,
                    LookupFailure,
                >(code_id),
                Err(e) => code_id_lookup(self.contract_map@, contract_name@) is Err
                    && lookup_error(e, LookupFailure::NotStored, contract_name@),
            },
    {
        match self.contract_map.code_id(contract_name) {
            Ok(code_id) => Ok(code_id),
            Err(e) => Err(ProcessError::ContractMapError(e)),
        }
    }

    /// Takes the outcome of instantiating a contract. On success the
    /// contract's address is added to the contract map and the operation is
    /// profiled. On failure nothing changes.
    pub fn instantiated(
        &mut self,
        contract_name: String,
        op_name: String,
        outcome: Result<InstantiateResponse, ClientError>,
        caller_loc: &CallLoc,
    ) -> (r: Result<InstantiateResponse, ProcessError>)
        ensures
            match outcome {
                Ok(res) => r == Ok::<_, ProcessError>(res) && final(self).contract_map@
                    == with_address(old(self).contract_map@, contract_name@, res.address@)
                    && final(self).profile() == profiled(
                    old(self).profile(),
                    contract_name@,
                    op_name@,
                    CommandType::Instantiate,
                    res.res,
                    *caller_loc,
                ),
                Err(e) => r == Err::<InstantiateResponse, _>(ProcessError::ClientError(e))
                    && final(self).contract_map@ == old(self).contract_map@
                    && final(self).profile() == old(self).profile(),
            },
    {
        let res = match outcome {
            Ok(res) => res,
            Err(e) => {
                return Err(ProcessError::ClientError(e));
            },
        };
        let _ = self.contract_map.add_address(contract_name.as_str(), res.address.as_str());
        self.instrument(contract_name, op_name, CommandType::Instantiate, &res.res, caller_loc);
        Ok(res)
    }

    /// The address of the contract to run an operation on. Fails with
    /// `NotStored` where the contract map has no entry under the name, and
    /// with `NotDeployed` where the entry has no address: nothing is to be
    /// sent then.
    fn deployed_address(&self, contract_name: &str) -> (r: Result<String, ProcessError>)
        ensures
            match r {
                Ok(address) => address_lookup(self.contract_map@, contract_name@) == Ok::<
                    _,
                    LookupFailure,
                >(address@),
                Err(e) => address_lookup(self.contract_map@, contract_name@) matches Err(failure)
                    && lookup_error(e, failure, contract_name@),
            },
    {
        match self.contract_map.address(contract_name) {
            Ok(address) => Ok(address),
            Err(e) => Err(ProcessError::ContractMapError(e)),
        }
    }

    /// The address of the contract to execute on. Fails with `NotStored`
    /// or `NotDeployed` where the contract map knows no address under the
    /// name.
    pub fn execute(&self, contract_name: &str) -> (r: Result<String, ProcessError>)
        ensures
            match r {
                Ok(address) => address_lookup(self.contract_map@, contract_name@) == Ok::<
                    _,
                    LookupFailure,
                >(address@),
                Err(e) => address_lookup(self.contract_map@, contract_name@) matches Err(failure)
                    && lookup_error(e, failure, contract_name@),
            },
    {
        self.deployed_address(contract_name)
    }

    /// Takes the outcome of executing on a contract. On success the
    /// operation is profiled. The contract map stays as it is either way,
    /// and on failure the gas profile too.
    pub fn executed(
        &mut self,
        contract_name: String,
        op_name: String,
        outcome: Result<ExecResponse, ClientError>,
        caller_loc: &CallLoc,
    ) -> (r: Result<ExecResponse, ProcessError>)
        ensures
            final(self).contract_map@ == old(self).contract_map@,
            match outcome {
                Ok(res) => r == Ok::<_, ProcessError>(res) && final(self).profile() == profiled(
                    old(self).profile(),
                    contract_name@,
                    op_name@,
                    CommandType::Execute,
                    res.res,
                    *caller_loc,
                ),
                Err(e) => r == Err::<ExecResponse, _>(ProcessError::ClientError(e))
                    && final(self).profile() == old(self).profile(),
            },
    {
        let res = match outcome {
            Ok(res) => res,
            Err(e) => {
                return Err(ProcessError::ClientError(e));
            },
        };
        self.instrument(contract_name, op_name, CommandType::Execute, &res.res, caller_loc);
        Ok(res)
    }

    /// The address of the contract to query. Fails with `NotStored` or
    /// `NotDeployed` where the contract map knows no address under the name.
    pub fn query(&self, contract_name: &str) -> (r: Result<String, ProcessError>)
        ensures
            match r {
                Ok(address) => address_lookup(self.contract_map@, contract_name@) == Ok::<
                    _,
                    LookupFailure,
                >(address@),
                Err(e) => address_lookup(self.contract_map@, contract_name@) matches Err(failure)
                    && lookup_error(e, failure, contract_name@),
            },
    {
        self.deployed_address(contract_name)
    }

    /// Takes the outcome of a query. A query changes nothing and is not
    /// profiled.
    pub fn queried(&self, outcome: Result<QueryResponse, ClientError>) -> (r: Result<
        QueryResponse,
        ProcessError,
    >)
        ensures
            r == match outcome {
                Ok(res) => Ok::<_, ProcessError>(res),
                Err(e) => Err(ProcessError::ClientError(e)),
            },
    {
        match outcome {
            Ok(res) => Ok(res),
            Err(e) => Err(ProcessError::ClientError(e)),
        }
    }

    /// The address of the contract to migrate. Fails with `NotStored` or
    /// `NotDeployed` where the contract map knows no address under the name.
    pub fn migrate(&self, contract_name: &str) -> (r: Result<String, ProcessError>)
        ensures
            match r {
                Ok(address) => address_lookup(self.contract_map@, contract_name@) == Ok::<
                    _,
                    LookupFailure,
                >(address@),
                Err(e) => address_lookup(self.contract_map@, contract_name@) matches Err(failure)
                    && lookup_error(e, failure, contract_name@),
            },
    {
        self.deployed_address(contract_name)
    }

    /// Takes the outcome of migrating a contract to `new_code_id`. On
    /// success the new code id is registered under the contract's name,
    /// where its address stays, and the operation is profiled. On failure
    /// nothing changes.
    pub fn migrated(
        &mut self,
        contract_name: String,
        new_code_id: u64,
        op_name: String,
        outcome: Result<MigrateResponse, ClientError>,
        caller_loc: &CallLoc,
    ) -> (r: Result<MigrateResponse, ProcessError>)
        ensures
            match outcome {
                Ok(res) => r == Ok::<_, ProcessError>(res) && final(self).contract_map@
                    == with_code_id(old(self).contract_map@, contract_name@, new_code_id)
                    && final(self).profile() == profiled(
                    old(self).profile(),
                    contract_name@,
                    op_name@,
                    CommandType::Migrate,
                    res.res,
                    *caller_loc,
                ),
                Err(e) => r == Err::<MigrateResponse, _>(ProcessError::ClientError(e))
                    && final(self).contract_map@ == old(self).contract_map@
                    && final(self).profile() == old(self).profile(),
            },
    {
        let res = match outcome {
            Ok(res) => res,
            Err(e) => {
                return Err(ProcessError::ClientError(e));
            },
        };
        self.contract_map.register_contract(contract_name.as_str(), new_code_id);
        self.instrument(contract_name, op_name, CommandType::Migrate, &res.res, caller_loc);
        Ok(res)
    }

    /// The gas usage report; `None` where the orchestrator has no profiler.
    pub fn gas_profiler_report(&self) -> (r: Option<&Report>)
        ensures
            match r {
                Some(report) => self.profile() == Some(report@),
                None => self.profile() is None,
            },
    {
        match &self.gas_profiler {
            Some(profiler) => Some(profiler.report()),
            None => None,
        }
    }
}

} // verus!
