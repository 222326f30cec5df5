//! Orchestration rules of a fuzzing test runner: how the outcomes of many
//! randomized trials of one test case are drained, cut short on the first
//! failure and folded into a single verdict, together with the decisions that
//! surround a run (dispatch, trace and coverage steps, signature filtering).
//!
//! Everything that waits, spawns or touches the file system lives with the
//! caller; this crate holds the decisions and states what each of them yields.

use vstd::prelude::*;

pub mod artifacts;
pub mod dispatch;
pub mod outcome;
pub mod params;
pub mod session;
pub mod signature;

pub use artifacts::{
    maybe_generate_coverage, maybe_save_trace_and_profile, no_trace_data_warning,
    trace_file_stem, traced_test, CoverageStep, ExecutionDataToSave, TracePlan,
};
pub use dispatch::{run_for_test_case, RunMode};
pub use outcome::{
    aggregate_outcomes, completed_runs, count_completed, resolve_verdict, AnyTestSummary, Failure,
    FuzzError, FuzzVerdict, PassedRun, TrialOutcome,
};
pub use params::{EffectiveFuzzParams, RawFuzzerConfig, RunCount, RunnerDefaults, TestCase};
pub use session::{shared_rng, Action, FuzzSession, TrialEvent};
pub use signature::{
    function_args, is_builtin, ConcreteTypeLongId, Function, FunctionSignature, GenericArg,
    TypeDeclaration,
};

verus! {

/// Name of the directory in which the runner keeps its caches.
pub const CACHE_DIR: &'static str = ".snfoundry_cache";

/// Decides which test cases of a target take part in a run.
pub trait TestCaseFilter {
    /// Whether `test_case` is to be run.
    fn should_be_run(&self, test_case: &TestCase) -> bool;
}

} // verus!
