//! Gas profiling: what each operation on each contract cost, and where it
//! was called from.

use crate::client::chain_res::ChainResponse;
use crate::util::str_map::StrMap;
use vstd::prelude::*;

verus! {

/// The kind of an operation on a contract.
#[derive(Clone, Copy, Debug, PartialEq, Eq, Structural)]
pub enum CommandType {
    Store,
    Instantiate,
    Query,
    Execute,
    Migrate,
}

impl CommandType {
    /// The name of the kind, as it stands in a report's keys.
    pub open spec fn spec_name(self) -> Seq<char> {
        match self {
            CommandType::Store => "Store"@,
            CommandType::Instantiate => "Instantiate"@,
            CommandType::Query => "Query"@,
            CommandType::Execute => "Execute"@,
            CommandType::Migrate => "Migrate"@,
        }
    }

    /// The name of the kind, as it stands in a report's keys.
    pub fn name(&self) -> (s: &'static str)
        ensures
            s@ == self.spec_name(),
    {
        match self {
            CommandType::Store => "Store",
            CommandType::Instantiate => "Instantiate",
            CommandType::Query => "Query",
            CommandType::Execute => "Execute",
            CommandType::Migrate => "Migrate",
        }
    }
}

/// The place in the caller's source that an operation was called from.
#[derive(Clone, Debug, PartialEq, Eq)]
pub struct CallLoc {
    pub file_name: String,
    pub line_number: u32,
}

/// The gas that one operation wanted and used, and where it was called from.
#[derive(Clone, Debug, PartialEq, Eq)]
pub struct GasReport {
    pub gas_wanted: u64,
    pub gas_used: u64,
    pub file_name: String,
    pub line_number: u32,
}

/// A `GasReport` as a plain value.
pub ghost struct GasReportView {
    pub gas_wanted: u64,
    pub gas_used: u64,
    pub file_name: Seq<char>,
    pub line_number: u32,
}

impl View for GasReport {
    type V = GasReportView;

    open spec fn view(&self) -> GasReportView {
        GasReportView {
            gas_wanted: self.gas_wanted,
            gas_used: self.gas_used,
            file_name: self.file_name@,
            line_number: self.line_number,
        }
    }
}

/// The reports by contract name, and under each contract by operation key.
pub type Report = StrMap<StrMap<GasReport>>;

/// The same as plain values.
pub type ReportView = Map<Seq<char>, Map<Seq<char>, GasReportView>>;

/// The key under which an operation is reported: its kind, two underscores,
/// and the label that the caller gave it.
pub open spec fn op_key(op_type: CommandType, op_name: Seq<char>) -> Seq<char> {
    op_type.spec_name() + "__"@ + op_name
}

/// The report of an operation with the given response, called from the given
/// place.
pub open spec fn gas_report_of(response: ChainResponse, caller_loc: CallLoc) -> GasReportView {
    GasReportView {
        gas_wanted: response.gas_wanted,
        gas_used: response.gas_used,
        file_name: caller_loc.file_name@,
        line_number: caller_loc.line_number,
    }
}

/// The reports of one contract; none where the contract has no entry.
pub open spec fn reports_of(report: ReportView, contract: Seq<char>) -> Map<
    Seq<char>,
    GasReportView,
> {
    if report.contains_key(contract) {
        report[contract]
    } else {
        Map::empty()
    }
}

/// The reports after one operation was instrumented. A query costs no gas
/// and leaves the reports as they are. Any other operation puts its report
/// under its key, in place of an earlier report under that key.
pub open spec fn instrumented(
    report: ReportView,
    contract: Seq<char>,
    op_name: Seq<char>,
    op_type: CommandType,
    entry: GasReportView,
) -> ReportView {
    if op_type == CommandType::Query {
        report
    } else {
        report.insert(contract, reports_of(report, contract).insert(op_key(op_type, op_name), entry))
    }
}

/// Records the gas usage of contract operations.
#[derive(Clone, Debug)]
pub struct GasProfiler {
    report: Report,
}

impl View for GasProfiler {
    type V = ReportView;

    closed spec fn view(&self) -> ReportView {
        self.report@
    }
}

impl Default for GasProfiler {
    fn default() -> (p: Self)
        ensures
            p@ == ReportView::empty(),
    {
        GasProfiler::new()
    }
}

impl GasProfiler {
    /// A profiler without reports.
    pub fn new() -> (p: Self)
        ensures
            p@ == ReportView::empty(),
    {
        GasProfiler { report: StrMap::new() }
    }

    /// Records what the operation `op_name` of kind `op_type` on `contract`
    /// cost. Queries are not recorded.
    pub fn instrument(
        &mut self,
        contract: String,
        op_name: String,
        op_type: CommandType,
        response: &ChainResponse,
        caller_loc: &CallLoc,
    )
        ensures
            final(self)@ == instrumented(
                old(self)@,
                contract@,
                op_name@,
                op_type,
                gas_report_of(*response, *caller_loc),
            ),
    {
        if op_type == CommandType::Query {
            return ;
        }
        let mut key = String::from_str(op_type.name());
        key.append("__");
        key.append(op_name.as_str());

        let mut reports = match self.report.remove(contract.as_str()) {
            Some(reports) => reports,
            None => StrMap::new(),
        };
        reports.insert(
            key,
            GasReport {
                gas_used: response.gas_used,
                gas_wanted: response.gas_wanted,
                file_name: caller_loc.file_name.clone(),
                line_number: caller_loc.line_number,
            },
        );
        self.report.insert(contract, reports);
        assert(self@ =~= instrumented(
            old(self)@,
            contract@,
            op_name@,
            op_type,
            gas_report_of(*response, *caller_loc),
        ));
    }

    /// The reports recorded so far.
    pub fn report(&self) -> (r: &Report)
        ensures
            r@ == self@,
    {
        &self.report
    }
}

/// A query never adds a report.
pub proof fn lemma_query_is_not_recorded(
    report: ReportView,
    contract: Seq<char>,
    op_name: Seq<char>,
    entry: GasReportView,
)
    ensures
        instrumented(report, contract, op_name, CommandType::Query, entry) == report,
{
}

/// An operation that is no query adds exactly one report: it is found under
/// the contract and the operation's key, and every report under another
/// contract or another key is as it was.
pub proof fn lemma_instrument_records_one(
    report: ReportView,
    contract: Seq<char>,
    op_name: Seq<char>,
    op_type: CommandType,
    entry: GasReportView,
)
    requires
        op_type != CommandType::Query,
    ensures
        ({
            let after = instrumented(report, contract, op_name, op_type, entry);
            &&& after.contains_key(contract)
            &&& after[contract].contains_key(op_key(op_type, op_name))
            &&& after[contract][op_key(op_type, op_name)] == entry
            &&& forall|c: Seq<char>, k: Seq<char>|
                c != contract || k != op_key(op_type, op_name) ==> (#[trigger] reports_of(
                    after,
                    c,
                ).contains_key(k) <==> reports_of(report, c).contains_key(k))
            &&& forall|c: Seq<char>, k: Seq<char>|
                (c != contract || k != op_key(op_type, op_name)) && reports_of(
                    report,
                    c,
                ).contains_key(k) ==> #[trigger] reports_of(after, c)[k] == reports_of(report, c)[k]
        }),
{
}

/// A second report under the same contract and key takes the place of the
/// first: the reports are as if only the second operation had been
/// instrumented.
pub proof fn lemma_instrument_overwrites(
    report: ReportView,
    contract: Seq<char>,
    op_name: Seq<char>,
    op_type: CommandType,
    first: GasReportView,
    second: GasReportView,
)
    ensures
        instrumented(
            instrumented(report, contract, op_name, op_type, first),
            contract,
            op_name,
            op_type,
            second,
        ) == instrumented(report, contract, op_name, op_type, second),
{
    let once = instrumented(report, contract, op_name, op_type, first);
    let twice = instrumented(once, contract, op_name, op_type, second);
    let direct = instrumented(report, contract, op_name, op_type, second);
    if op_type != CommandType::Query {
        assert(twice[contract] =~= direct[contract]);
        assert(twice =~= direct);
    }
}

} // verus!
