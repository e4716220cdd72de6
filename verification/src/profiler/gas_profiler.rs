//! The command line profiler: runs the messages of a benchmark through the
//! chain's command line client and reports the gas that each used.
//!
//! Running a command is the caller's part. For each step the profiler
//! gives the arguments of the command, and takes what the command printed.

use super::command::{
    base_args_of, command_args, lemma_texts_push, texts, CliOutput, CliOutputView, CommandType,
};
use super::config::Config;
use crate::util::json::{
    is_json_text, json_number, json_object, json_of, json_plain, json_to_vec,
    lemma_members_of_entries, members_map, names_distinct, Json,
};
use crate::util::num::{decimal_digits, parse_u64, parsed_u64, u64_to_string};
use crate::util::str_map::StrMap;
use serde_json::Value;
use vstd::prelude::*;

verus! {

pub type ContractName = String;

/// What is known of a stored contract: the id of its code, and its address
/// once it is instantiated.
#[derive(Clone, Debug, PartialEq, Eq)]
pub struct DeployInfo {
    pub code_id: u64,
    pub address: Option<String>,
}

/// A `DeployInfo` as a plain value.
pub ghost struct DeployInfoView {
    pub code_id: u64,
    pub address: Option<Seq<char>>,
}

impl View for DeployInfo {
    type V = DeployInfoView;

    open spec fn view(&self) -> DeployInfoView {
        DeployInfoView {
            code_id: self.code_id,
            address: match self.address {
                Some(a) => Some(a@),
                None => None,
            },
        }
    }
}

/// The gas that a message wanted and used.
#[derive(Clone, Copy, Debug, PartialEq, Eq, Structural)]
pub struct GasReport {
    pub gas_wanted: u64,
    pub gas_used: u64,
}

impl View for GasReport {
    type V = GasReport;

    open spec fn view(&self) -> GasReport {
        *self
    }
}

/// A message to a contract, as JSON text.
#[derive(Clone, Debug, PartialEq, Eq)]
pub enum WasmMsg {
    InstantiateMsg(String),
    ExecuteMsg(String),
    QueryMsg(String),
}

/// Why a benchmark failed.
#[derive(Clone, Copy, Debug, PartialEq, Eq, Structural)]
pub enum BenchmarkError {
    /// The contract is not stored.
    NotStored,
    /// The contract is not instantiated.
    NotInstantiated,
    /// The output lacks a string where one is expected.
    NotAString,
    /// A string of the output is no number.
    NotANumber,
    /// The report cannot be written as JSON.
    Json,
}

/// The key under which the gas of an instantiation is reported.
pub open spec fn instantiate_key() -> Seq<char> {
    "Instantiate_TODO"@
}

/// The key under which the gas of an execution is reported.
pub open spec fn execute_key() -> Seq<char> {
    "Execute_TODO"@
}

/// The contract map that the configured code ids give: each name with its
/// code id and without an address; of two entries with one name the later
/// one stands.
pub open spec fn configured_contracts(code_ids: Seq<(String, u64)>) -> Map<
    Seq<char>,
    DeployInfoView,
>
    decreases code_ids.len(),
{
    if code_ids.len() == 0 {
        Map::empty()
    } else {
        configured_contracts(code_ids.drop_last()).insert(
            code_ids.last().0@,
            DeployInfoView { code_id: code_ids.last().1, address: None },
        )
    }
}

/// The number that a string of the output stands for: `NotAString` where
/// the string is missing, `NotANumber` where it is no number.
pub open spec fn number_in(text: Option<Seq<char>>) -> Result<u64, BenchmarkError> {
    match text {
        None => Err(BenchmarkError::NotAString),
        Some(text) => match parsed_u64(text) {
            Some(n) => Ok(n),
            None => Err(BenchmarkError::NotANumber),
        },
    }
}

/// The gas report in the output of a command.
pub open spec fn gas_report_in(
    gas_used: Option<Seq<char>>,
    gas_wanted: Option<Seq<char>>,
) -> Result<GasReport, BenchmarkError> {
    match number_in(gas_used) {
        Err(e) => Err(e),
        Ok(gas_used) => match number_in(gas_wanted) {
            Err(e) => Err(e),
            Ok(gas_wanted) => Ok(GasReport { gas_wanted, gas_used }),
        },
    }
}

/// Reads the number that a string of the output stands for.
fn read_number(text: &Option<String>) -> (r: Result<u64, BenchmarkError>)
    ensures
        r == number_in(
            match *text {
                Some(t) => Some(t@),
                None => None,
            },
        ),
{
    match text {
        None => Err(BenchmarkError::NotAString),
        Some(text) => match parse_u64(text.as_str()) {
            Some(n) => Ok(n),
            None => Err(BenchmarkError::NotANumber),
        },
    }
}

/// Reads the gas report in the output of a command.
fn read_gas_report(output: &CliOutput) -> (r: Result<GasReport, BenchmarkError>)
    ensures
        r == gas_report_in(output@.gas_used, output@.gas_wanted),
{
    let gas_used = match read_number(&output.gas_used) {
        Ok(n) => n,
        Err(e) => {
            return Err(e);
        },
    };
    match read_number(&output.gas_wanted) {
        Ok(gas_wanted) => Ok(GasReport { gas_wanted, gas_used }),
        Err(e) => Err(e),
    }
}

/// Appends clones of the strings of `more` to `args`.
fn extend(args: &mut Vec<String>, more: &Vec<String>)
    ensures
        texts(final(args)@) == texts(old(args)@) + texts(more@),
{
    let ghost before = args@;
    let mut i: usize = 0;
    assert(texts(args@) =~= texts(before) + texts(more@.take(0)));
    while i < more.len()
        invariant
            0 <= i <= more@.len(),
            texts(args@) == texts(before) + texts(more@.take(i as int)),
        decreases more@.len() - i,
    {
        let ghost so_far = args@;
        args.push(more[i].clone());
        proof {
            lemma_texts_push(so_far, more@[i as int]);
            lemma_texts_push(more@.take(i as int), more@[i as int]);
            assert(more@.take(i + 1) =~= more@.take(i as int).push(more@[i as int]));
            assert(texts(args@) =~= texts(before) + texts(more@.take(i + 1)));
        }
        i += 1;
    }
    assert(more@.take(more@.len() as int) =~= more@);
}

/// Profiles the gas of contract messages through the chain's command line
/// client.
#[derive(Clone, Debug)]
pub struct GasProfiler {
    pub cfg: Config,
    pub contract_map: StrMap<DeployInfo>,
    pub report: StrMap<GasReport>,
}

/// The arguments of the command for a message to a contract with the given
/// deploy info, without those that the kind of the command begins with.
pub open spec fn message_args(
    info: DeployInfoView,
    msg: WasmMsg,
    tx_flags: Seq<Seq<char>>,
) -> Result<(CommandType, Seq<Seq<char>>), BenchmarkError> {
    match msg {
        WasmMsg::InstantiateMsg(json) => Ok(
            (
                CommandType::Instantiate,
                seq![
                    decimal_digits(info.code_id as nat),
                    json@,
                    "--label"@,
                    "gas profiler"@,
                    "--no-admin"@,
                ] + tx_flags,
            ),
        ),
        WasmMsg::ExecuteMsg(json) => match info.address {
            Some(address) => Ok((CommandType::Execute, seq![address, json@] + tx_flags)),
            None => Err(BenchmarkError::NotInstantiated),
        },
        WasmMsg::QueryMsg(json) => match info.address {
            Some(address) => Ok(
                (CommandType::Query, seq![address, json@, "--output"@, "json"@]),
            ),
            None => Err(BenchmarkError::NotInstantiated),
        },
    }
}

impl GasProfiler {
    /// A profiler that knows the configured code ids and has nothing to
    /// report yet.
    pub fn new(cfg: Config) -> (p: Self)
        ensures
            p.cfg == cfg,
            p.contract_map@ == configured_contracts(cfg.code_ids@),
            p.report@ == Map::<Seq<char>, GasReport>::empty(),
    {
        let mut contract_map: StrMap<DeployInfo> = StrMap::new();
        let mut i: usize = 0;
        assert(cfg.code_ids@.take(0) =~= Seq::<(String, u64)>::empty());
        while i < cfg.code_ids.len()
            invariant
                0 <= i <= cfg.code_ids@.len(),
                contract_map@ == configured_contracts(cfg.code_ids@.take(i as int)),
            decreases cfg.code_ids@.len() - i,
        {
            proof {
                assert(cfg.code_ids@.take(i + 1).drop_last() =~= cfg.code_ids@.take(i as int));
            }
            contract_map.insert(
                cfg.code_ids[i].0.clone(),
                DeployInfo { code_id: cfg.code_ids[i].1, address: None },
            );
            i += 1;
        }
        assert(cfg.code_ids@.take(cfg.code_ids@.len() as int) =~= cfg.code_ids@);
        GasProfiler { cfg, contract_map, report: StrMap::new() }
    }

    /// The arguments of the command that stores the wasm file at a path.
    pub fn store_args(&self, wasm_path: &str) -> (r: Vec<String>)
        ensures
            texts(r@) == seq!["tx"@, "wasm"@, "store"@, wasm_path@] + texts(self.cfg.tx_flags@),
    {
        let mut args: Vec<String> = Vec::new();
        args.push(wasm_path.to_owned());
        extend(&mut args, &self.cfg.tx_flags);
        let r = command_args(CommandType::Store, &args);
        assert(texts(r@) =~= seq!["tx"@, "wasm"@, "store"@, wasm_path@] + texts(
            self.cfg.tx_flags@,
        ));
        r
    }

    /// Takes the output of the command that stored the wasm file with the
    /// given stem: the contract is kept under the stem with the code id
    /// that the output reports, and without an address.
    ///
    /// Fails with `NotAString` where the output reports no code id, and
    /// with `NotANumber` where what it reports is no number; nothing
    /// changes then.
    pub fn store_contracts(&mut self, file_stem: &str, output: &CliOutput) -> (r: Result<
        (),
        BenchmarkError,
    >)
        ensures
            final(self).cfg == old(self).cfg,
            final(self).report@ == old(self).report@,
            match number_in(output@.second_event_value) {
                Ok(code_id) => r is Ok && final(self).contract_map@ == old(
                    self,
                ).contract_map@.insert(file_stem@, DeployInfoView { code_id, address: None }),
                Err(e) => r == Err::<(), _>(e) && final(self).contract_map@ == old(
                    self,
                ).contract_map@,
            },
    {
        let code_id = match read_number(&output.second_event_value) {
            Ok(code_id) => code_id,
            Err(e) => {
                return Err(e);
            },
        };
        self.contract_map.insert(file_stem.to_owned(), DeployInfo { code_id, address: None });
        Ok(())
    }

    /// Whether a benchmark can be run on a contract: fails with `NotStored`
    /// where the contract is not stored, whatever the messages are.
    pub fn benchmark_contract(&self, contract_name: &str) -> (r: Result<(), BenchmarkError>)
        ensures
            r == (if self.contract_map@.contains_key(contract_name@) {
                Ok::<(), BenchmarkError>(())
            } else {
                Err(BenchmarkError::NotStored)
            }),
    {
        if self.contract_map.contains_key(contract_name) {
            Ok(())
        } else {
            Err(BenchmarkError::NotStored)
        }
    }

    /// The command for the next message of a benchmark on a contract: its
    /// kind and its arguments.
    ///
    /// Fails with `NotStored` where the contract is not stored, and with
    /// `NotInstantiated` where the message is to be executed or queried and
    /// the contract has no address.
    pub fn run_benchmark(&self, contract_name: &str, msg: &WasmMsg) -> (r: Result<
        (CommandType, Vec<String>),
        BenchmarkError,
    >)
        ensures
            match r {
                Ok((cmd_type, args)) => benchmark_command(
                    self.contract_map@,
                    contract_name@,
                    *msg,
                    texts(self.cfg.tx_flags@),
                ) == Ok::<_, BenchmarkError>((cmd_type, texts(args@))),
                Err(e) => benchmark_command(
                    self.contract_map@,
                    contract_name@,
                    *msg,
                    texts(self.cfg.tx_flags@),
                ) == Err::<(CommandType, Seq<Seq<char>>), _>(e),
            },
    {
        let info = match self.contract_map.get(contract_name) {
            Some(info) => info,
            None => {
                return Err(BenchmarkError::NotStored);
            },
        };
        let mut args: Vec<String> = Vec::new();
        match msg {
            WasmMsg::InstantiateMsg(json) => {
                args.push(u64_to_string(info.code_id));
                args.push(json.clone());
                args.push("--label".to_owned());
                args.push("gas profiler".to_owned());
                args.push("--no-admin".to_owned());
                extend(&mut args, &self.cfg.tx_flags);
                assert(texts(args@) =~= seq![
                    decimal_digits(info.code_id as nat),
                    json@,
                    "--label"@,
                    "gas profiler"@,
                    "--no-admin"@,
                ] + texts(self.cfg.tx_flags@));
                Ok((CommandType::Instantiate, command_args(CommandType::Instantiate, &args)))
            },
            WasmMsg::ExecuteMsg(json) => {
                let address = match &info.address {
                    Some(address) => address,
                    None => {
                        return Err(BenchmarkError::NotInstantiated);
                    },
                };
                args.push(address.clone());
                args.push(json.clone());
                extend(&mut args, &self.cfg.tx_flags);
                assert(texts(args@) =~= seq![address@, json@] + texts(self.cfg.tx_flags@));
                Ok((CommandType::Execute, command_args(CommandType::Execute, &args)))
            },
            WasmMsg::QueryMsg(json) => {
                let address = match &info.address {
                    Some(address) => address,
                    None => {
                        return Err(BenchmarkError::NotInstantiated);
                    },
                };
                args.push(address.clone());
                args.push(json.clone());
                args.push("--output".to_owned());
                args.push("json".to_owned());
                assert(texts(args@) =~= seq![address@, json@, "--output"@, "json"@]);
                Ok((CommandType::Query, command_args(CommandType::Query, &args)))
            },
        }
    }

    /// Takes the output of the command for a message of a benchmark on a
    /// stored contract.
    ///
    /// For an instantiation the gas is reported under `Instantiate_TODO`,
    /// and then the address that the output reports is kept for the
    /// contract. For an execution the gas is reported under `Execute_TODO`.
    /// For a query nothing is kept.
    ///
    /// Fails with `NotStored` where the contract is not stored, and with
    /// `NotAString` or `NotANumber` where the output lacks the gas or the
    /// address.
    pub fn benchmarked(&mut self, contract_name: &str, msg: &WasmMsg, output: &CliOutput) -> (r:
        Result<(), BenchmarkError>)
        ensures
            final(self).cfg == old(self).cfg,
            is_benchmarked(
                r,
                old(self).contract_map@,
                old(self).report@,
                final(self).contract_map@,
                final(self).report@,
                contract_name@,
                *msg,
                output@,
            ),
    {
        let code_id = match self.contract_map.get(contract_name) {
            Some(info) => info.code_id,
            None => {
                return Err(BenchmarkError::NotStored);
            },
        };
        match msg {
            WasmMsg::InstantiateMsg(_) => {
                let gas = match read_gas_report(output) {
                    Ok(gas) => gas,
                    Err(e) => {
                        return Err(e);
                    },
                };
                self.report.insert("Instantiate_TODO".to_owned(), gas);
                let address = match &output.first_event_value {
                    Some(address) => address.clone(),
                    None => {
                        return Err(BenchmarkError::NotAString);
                    },
                };
                self.contract_map.insert(
                    contract_name.to_owned(),
                    DeployInfo { code_id, address: Some(address) },
                );
                Ok(())
            },
            WasmMsg::ExecuteMsg(_) => {
                let gas = match read_gas_report(output) {
                    Ok(gas) => gas,
                    Err(e) => {
                        return Err(e);
                    },
                };
                self.report.insert("Execute_TODO".to_owned(), gas);
                Ok(())
            },
            WasmMsg::QueryMsg(_) => Ok(()),
        }
    }

    /// The report as JSON text: the text of a JSON object that holds, under
    /// each key of the report, an object with the gas wanted and the gas
    /// used. It never fails.
    pub fn write_report(&self) -> (r: Result<Vec<u8>, BenchmarkError>)
        ensures
            r matches Ok(bytes) && is_json_text(bytes@, report_model(self.report@)),
    {
        let entries = self.report.entries();
        let mut members: Vec<(String, Value)> = Vec::new();
        let mut i: usize = 0;
        while i < entries.len()
            invariant
                0 <= i <= entries@.len(),
                members@.len() == i,
                forall|j: int|
                    0 <= j < i ==> (#[trigger] members@[j]).0@ == entries@[j].0@ && json_of(
                        members@[j].1,
                    ) == gas_model(entries@[j].1@),
            decreases entries@.len() - i,
        {
            let mut gas: Vec<(String, Value)> = Vec::new();
            gas.push(("gas_wanted".to_owned(), json_number(entries[i].1.gas_wanted)));
            gas.push(("gas_used".to_owned(), json_number(entries[i].1.gas_used)));
            proof {
                reveal_strlit("gas_wanted");
                reveal_strlit("gas_used");
                assert(names_distinct(gas@)) by {
                    assert(gas@[0].0@.len() == 10 && gas@[1].0@.len() == 8);
                }
                let s2 = gas@;
                let s1 = s2.drop_last();
                assert(s1.drop_last() =~= Seq::<(String, Value)>::empty());
                assert(members_map(s1.drop_last()) == Map::<Seq<char>, Json>::empty());
                assert(s1.last() == s2[0] && s2.last() == s2[1]);
                assert(members_map(s1) == members_map(s1.drop_last()).insert(
                    s1.last().0@,
                    json_of(s1.last().1),
                ));
                assert(members_map(s2) == members_map(s1).insert(
                    s2.last().0@,
                    json_of(s2.last().1),
                ));
            }
            members.push((entries[i].0.clone(), json_object(gas)));
            i += 1;
        }
        proof {
            assert(names_distinct(members@)) by {
                assert forall|a: int, b: int| 0 <= a < b < members@.len() implies members@[a].0@
                    != members@[b].0@ by {
                    assert(members@[a].0@ == entries@[a].0@ && members@[b].0@ == entries@[b].0@);
                }
            }
            assert forall|gas: GasReport| json_plain(#[trigger] gas_model(gas), 1) by {
                reveal_with_fuel(json_plain, 2);
            }
            assert(json_plain(report_model(self.report@), 2)) by {
                reveal_with_fuel(json_plain, 2);
            }
            let f = |gas: GasReport| gas_model(gas);
            lemma_members_of_entries(members@, entries@, f);
            assert(self.report@.map_values(f) =~= Map::new(
                |key: Seq<char>| self.report@.contains_key(key),
                |key: Seq<char>| gas_model(self.report@[key]),
            ));
        }
        let value = json_object(members);
        assert(json_plain(json_of(value), 2));
        match json_to_vec(&value) {
            Ok(bytes) => {
                assert(is_json_text(bytes@, report_model(self.report@)));
                Ok(bytes)
            },
            Err(_) => Err(BenchmarkError::Json),
        }
    }
}

/// What the JSON object of one gas report holds: the gas wanted and the gas
/// used.
pub open spec fn gas_model(gas: GasReport) -> Json {
    Json::Object(
        Map::<Seq<char>, Json>::empty().insert(
            "gas_wanted"@,
            Json::Number(Some(gas.gas_wanted as int)),
        ).insert("gas_used"@, Json::Number(Some(gas.gas_used as int))),
    )
}

/// What the JSON object of a report holds: under each key of the report the
/// object of its gas report.
pub open spec fn report_model(report: Map<Seq<char>, GasReport>) -> Json {
    Json::Object(
        Map::new(
            |key: Seq<char>| report.contains_key(key),
            |key: Seq<char>| gas_model(report[key]),
        ),
    )
}

/// The command for a message of a benchmark on a contract: its kind and
/// all its arguments. `NotStored` where the contract is not stored.
pub open spec fn benchmark_command(
    contracts: Map<Seq<char>, DeployInfoView>,
    contract_name: Seq<char>,
    msg: WasmMsg,
    tx_flags: Seq<Seq<char>>,
) -> Result<(CommandType, Seq<Seq<char>>), BenchmarkError> {
    if !contracts.contains_key(contract_name) {
        Err(BenchmarkError::NotStored)
    } else {
        match message_args(contracts[contract_name], msg, tx_flags) {
            Ok((cmd_type, args)) => Ok((cmd_type, base_args_of(cmd_type) + args)),
            Err(e) => Err(e),
        }
    }
}

/// Whether the contract map and the report are, after the output of the
/// command for a message was taken, what they are to be, and `r` says so.
pub open spec fn is_benchmarked(
    r: Result<(), BenchmarkError>,
    contracts: Map<Seq<char>, DeployInfoView>,
    report: Map<Seq<char>, GasReport>,
    contracts_after: Map<Seq<char>, DeployInfoView>,
    report_after: Map<Seq<char>, GasReport>,
    contract_name: Seq<char>,
    msg: WasmMsg,
    output: CliOutputView,
) -> bool {
    if !contracts.contains_key(contract_name) {
        r == Err::<(), _>(BenchmarkError::NotStored) && contracts_after == contracts
            && report_after == report
    } else {
        match msg {
            WasmMsg::InstantiateMsg(_) => match gas_report_in(output.gas_used, output.gas_wanted) {
                Err(e) => r == Err::<(), _>(e) && contracts_after == contracts && report_after
                    == report,
                Ok(gas) => report_after == report.insert(instantiate_key(), gas)
                    && match output.first_event_value {
                    None => r == Err::<(), _>(BenchmarkError::NotAString) && contracts_after
                        == contracts,
                    Some(address) => r is Ok && contracts_after == contracts.insert(
                        contract_name,
                        DeployInfoView {
                            code_id: contracts[contract_name].code_id,
                            address: Some(address),
                        },
                    ),
                },
            },
            WasmMsg::ExecuteMsg(_) => contracts_after == contracts && match gas_report_in(
                output.gas_used,
                output.gas_wanted,
            ) {
                Err(e) => r == Err::<(), _>(e) && report_after == report,
                Ok(gas) => r is Ok && report_after == report.insert(execute_key(), gas),
            },
            WasmMsg::QueryMsg(_) => r is Ok && contracts_after == contracts && report_after
                == report,
        }
    }
}

} // verus!
