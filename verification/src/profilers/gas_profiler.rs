//! The gas profiler as a profiler.

use super::profiler::{Profiler, ProfilerError, Report};
use crate::client::chain_res::ChainResponse;
use crate::orchestrator::gas_profiler::{
    gas_report_of, instrumented, CallLoc, CommandType, GasProfiler, GasReport, GasReportView,
    ReportView,
};
use crate::util::json::{
    is_json_text, json_number, json_object, json_of, json_plain, json_string, json_to_vec,
    lemma_members_of_entries, members_map, names_distinct, Json,
};
use crate::util::str_map::StrMap;
use serde_json::Value;
use vstd::prelude::*;

verus! {

/// What the JSON object of one gas report holds: the gas wanted, the gas
/// used, and the file and the line of the call.
pub open spec fn gas_report_model(report: GasReportView) -> Json {
    Json::Object(
        Map::<Seq<char>, Json>::empty().insert(
            "gas_wanted"@,
            Json::Number(Some(report.gas_wanted as int)),
        ).insert("gas_used"@, Json::Number(Some(report.gas_used as int))).insert(
            "file_name"@,
            Json::Text(report.file_name),
        ).insert("line_number"@, Json::Number(Some(report.line_number as int))),
    )
}

/// What the JSON object of the gas reports of one contract holds: under
/// each operation key the object of its gas report.
pub open spec fn contract_reports_model(reports: Map<Seq<char>, GasReportView>) -> Json {
    Json::Object(
        Map::new(
            |key: Seq<char>| reports.contains_key(key),
            |key: Seq<char>| gas_report_model(reports[key]),
        ),
    )
}

/// What the JSON object of all gas reports holds: under each contract the
/// object of its gas reports.
pub open spec fn report_model(report: ReportView) -> Json {
    Json::Object(
        Map::new(
            |contract: Seq<char>| report.contains_key(contract),
            |contract: Seq<char>| contract_reports_model(report[contract]),
        ),
    )
}

/// The object of all gas reports is built of numbers, strings and objects
/// alone.
pub proof fn lemma_report_is_plain(report: ReportView)
    ensures
        json_plain(report_model(report), 3),
{
    assert forall|reports: Map<Seq<char>, GasReportView>|
        json_plain(#[trigger] contract_reports_model(reports), 2) by {
        assert forall|gas: GasReportView| json_plain(#[trigger] gas_report_model(gas), 1) by {
            reveal_with_fuel(json_plain, 2);
        }
        reveal_with_fuel(json_plain, 2);
    }
    reveal_with_fuel(json_plain, 2);
}

/// The JSON object of one gas report.
fn gas_report_json(report: &GasReport) -> (r: Value)
    ensures
        json_of(r) == gas_report_model(report@),
{
    let mut members: Vec<(String, Value)> = Vec::new();
    members.push(("gas_wanted".to_owned(), json_number(report.gas_wanted)));
    members.push(("gas_used".to_owned(), json_number(report.gas_used)));
    members.push(("file_name".to_owned(), json_string(report.file_name.as_str())));
    members.push(("line_number".to_owned(), json_number(report.line_number as u64)));
    proof {
        reveal_strlit("gas_wanted");
        reveal_strlit("gas_used");
        reveal_strlit("file_name");
        reveal_strlit("line_number");
        assert(names_distinct(members@)) by {
            assert(members@[0].0@.len() == 10 && members@[1].0@.len() == 8 && members@[2].0@.len()
                == 9 && members@[3].0@.len() == 11);
        }
        let s4 = members@;
        let s3 = s4.drop_last();
        let s2 = s3.drop_last();
        let s1 = s2.drop_last();
        assert(s1.drop_last() =~= Seq::<(String, Value)>::empty());
        assert(members_map(s1.drop_last()) == Map::<Seq<char>, Json>::empty());
        assert(s1.last() == s4[0] && s2.last() == s4[1] && s3.last() == s4[2] && s4.last()
            == s4[3]);
        assert(members_map(s1) == members_map(s1.drop_last()).insert(
            s1.last().0@,
            json_of(s1.last().1),
        ));
        assert(members_map(s2) == members_map(s1).insert(s2.last().0@, json_of(s2.last().1)));
        assert(members_map(s3) == members_map(s2).insert(s3.last().0@, json_of(s3.last().1)));
        assert(members_map(s4) == members_map(s3).insert(s4.last().0@, json_of(s4.last().1)));
    }
    json_object(members)
}

/// The JSON object of the gas reports of one contract, by operation key.
fn contract_reports_json(reports: &StrMap<GasReport>) -> (r: Value)
    ensures
        json_of(r) == contract_reports_model(reports@),
{
    let entries = reports.entries();
    let mut members: Vec<(String, Value)> = Vec::new();
    let mut i: usize = 0;
    while i < entries.len()
        invariant
            0 <= i <= entries@.len(),
            members@.len() == i,
            forall|j: int|
                0 <= j < i ==> (#[trigger] members@[j]).0@ == entries@[j].0@ && json_of(
                    members@[j].1,
                ) == gas_report_model(entries@[j].1@),
        decreases entries@.len() - i,
    {
        members.push((entries[i].0.clone(), gas_report_json(&entries[i].1)));
        i += 1;
    }
    proof {
        assert(names_distinct(members@)) by {
            assert forall|a: int, b: int| 0 <= a < b < members@.len() implies members@[a].0@
                != members@[b].0@ by {
                assert(members@[a].0@ == entries@[a].0@ && members@[b].0@ == entries@[b].0@);
            }
        }
        let f = |report: GasReportView| gas_report_model(report);
        lemma_members_of_entries(members@, entries@, f);
        assert(reports@.map_values(f) =~= Map::new(
            |key: Seq<char>| reports@.contains_key(key),
            |key: Seq<char>| gas_report_model(reports@[key]),
        ));
    }
    json_object(members)
}

/// The name under which the gas profiler reports.
pub open spec fn gas_profiler_name() -> Seq<char> {
    "gas-profiler"@
}

impl Profiler for GasProfiler {
    /// The gas of the operation is recorded; a query is not recorded.
    /// Instrumenting never fails.
    open spec fn instrument_spec(
        before: Self,
        contract: Seq<char>,
        op_name: Seq<char>,
        op_type: CommandType,
        response: ChainResponse,
        caller_loc: CallLoc,
        after: Self,
        r: Result<(), ProfilerError>,
    ) -> bool {
        r is Ok && after@ == instrumented(
            before@,
            contract,
            op_name,
            op_type,
            gas_report_of(response, caller_loc),
        )
    }

    /// The report is named `gas-profiler`, and its data is the text of a
    /// JSON object that holds all gas reports: by contract, and under each
    /// contract by operation key. Reporting never fails.
    open spec fn report_spec(&self, r: Result<Report, ProfilerError>) -> bool {
        r matches Ok(report) && report.name@ == gas_profiler_name() && is_json_text(
            report.json_data@,
            report_model(self@),
        )
    }

    /// Records the gas of the operation; a query is not recorded. Never
    /// fails.
    fn instrument(
        &mut self,
        contract: String,
        op_name: String,
        op_type: CommandType,
        response: &ChainResponse,
        caller_loc: &CallLoc,
    ) -> (r: Result<(), ProfilerError>) {
        GasProfiler::instrument(self, contract, op_name, op_type, response, caller_loc);
        Ok(())
    }

    /// The gas reports as a JSON object: by contract, and under each
    /// contract by operation key, the gas wanted, the gas used, and the file
    /// and the line of the call.
    fn report(&self) -> (r: Result<Report, ProfilerError>) {
        let entries = GasProfiler::report(self).entries();
        let mut members: Vec<(String, Value)> = Vec::new();
        let mut i: usize = 0;
        while i < entries.len()
            invariant
                0 <= i <= entries@.len(),
                members@.len() == i,
                forall|j: int|
                    0 <= j < i ==> (#[trigger] members@[j]).0@ == entries@[j].0@ && json_of(
                        members@[j].1,
                    ) == contract_reports_model(entries@[j].1@),
            decreases entries@.len() - i,
        {
            members.push((entries[i].0.clone(), contract_reports_json(&entries[i].1)));
            i += 1;
        }
        proof {
            assert(names_distinct(members@)) by {
                assert forall|a: int, b: int| 0 <= a < b < members@.len() implies members@[a].0@
                    != members@[b].0@ by {
                    assert(members@[a].0@ == entries@[a].0@ && members@[b].0@ == entries@[b].0@);
                }
            }
            lemma_report_is_plain(self@);
            let f = |reports: Map<Seq<char>, GasReportView>| contract_reports_model(reports);
            lemma_members_of_entries(members@, entries@, f);
            assert(self@.map_values(f) =~= Map::new(
                |contract: Seq<char>| self@.contains_key(contract),
                |contract: Seq<char>| contract_reports_model(self@[contract]),
            ));
        }
        let value = json_object(members);
        assert(json_plain(json_of(value), 3));
        match json_to_vec(&value) {
            Ok(json_data) => {
                assert(is_json_text(json_data@, report_model(self@)));
                Ok(Report { name: "gas-profiler".to_owned(), json_data })
            },
            Err(_) => Err(ProfilerError::Json),
        }
    }
}

} // verus!
