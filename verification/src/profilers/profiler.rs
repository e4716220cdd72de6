//! What every profiler offers: to instrument an operation, and to report.

use crate::client::chain_res::ChainResponse;
use crate::orchestrator::gas_profiler::{CallLoc, CommandType};
use vstd::prelude::*;

verus! {

/// The report of a profiler: its name, and the report as JSON.
#[derive(Clone, Debug, PartialEq, Eq)]
pub struct Report {
    pub name: String,
    pub json_data: Vec<u8>,
}

/// Why a profiler failed.
#[derive(Clone, Copy, Debug, PartialEq, Eq, Structural)]
pub enum ProfilerError {
    /// The report cannot be written as JSON.
    Json,
}

/// A profiler of contract operations.
pub trait Profiler: Sized {
    /// Whether `after` and `r` are what instrumenting an operation makes of
    /// the profiler `before`.
    spec fn instrument_spec(
        before: Self,
        contract: Seq<char>,
        op_name: Seq<char>,
        op_type: CommandType,
        response: ChainResponse,
        caller_loc: CallLoc,
        after: Self,
        r: Result<(), ProfilerError>,
    ) -> bool;

    /// Whether `r` is a report of what the profiler has noted.
    spec fn report_spec(&self, r: Result<Report, ProfilerError>) -> bool;

    /// Takes note of an operation on a contract and of the chain's response
    /// to it.
    fn instrument(
        &mut self,
        contract: String,
        op_name: String,
        op_type: CommandType,
        response: &ChainResponse,
        caller_loc: &CallLoc,
    ) -> (r: Result<(), ProfilerError>)
        ensures
            Self::instrument_spec(
                *old(self),
                contract@,
                op_name@,
                op_type,
                *response,
                *caller_loc,
                *final(self),
                r,
            ),
    ;

    /// Reports what was noted.
    fn report(&self) -> (r: Result<Report, ProfilerError>)
        ensures
            self.report_spec(r),
    ;
}

} // verus!
