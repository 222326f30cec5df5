//! How one test case is run: directly, or as a fuzz test.

use crate::outcome::{AnyTestSummary, FuzzVerdict, TrialOutcome};
use crate::params::TestCase;
use vstd::prelude::*;

verus! {

/// The two ways of running a test case.
#[derive(Debug, Clone, Copy, PartialEq, Eq)]
pub enum RunMode {
    /// One direct execution, summarized as a single outcome.
    Single,
    /// A sweep of randomized trials, summarized as a fuzz verdict.
    Fuzzing,
}

/// A case is fuzzed exactly when it carries a fuzzer configuration.
pub open spec fn run_mode(case: TestCase) -> RunMode {
    if case.fuzzer_config is None {
        RunMode::Single
    } else {
        RunMode::Fuzzing
    }
}

/// Chooses how `case` is run. The caller creates one task for it, which
/// either executes the case once or drives a fuzzing session.
pub fn run_for_test_case(case: &TestCase) -> (mode: RunMode)
    ensures
        mode == run_mode(*case),
{
    match case.fuzzer_config {
        None => RunMode::Single,
        Some(_) => RunMode::Fuzzing,
    }
}

impl AnyTestSummary {
    /// The summary of a case that was executed once.
    pub fn single(outcome: TrialOutcome) -> (summary: AnyTestSummary)
        ensures
            summary == AnyTestSummary::Single(outcome),
    {
        AnyTestSummary::Single(outcome)
    }

    /// The summary of a case that was fuzzed.
    pub fn fuzzing(verdict: FuzzVerdict) -> (summary: AnyTestSummary)
        ensures
            summary == AnyTestSummary::Fuzzing(verdict),
    {
        AnyTestSummary::Fuzzing(verdict)
    }
}

} // verus!
