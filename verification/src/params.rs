//! Fuzzing parameters: what a test case overrides and what the runner
//! defaults to.

use vstd::prelude::*;

verus! {

/// A number of trials: at least one.
#[derive(Debug, Clone, Copy, PartialEq, Eq)]
pub struct RunCount {
    value: u32,
}

impl RunCount {
    #[verifier::type_invariant]
    spec fn positive(self) -> bool {
        self.value >= 1
    }

    /// The count as a number.
    pub closed spec fn view(self) -> u32 {
        self.value
    }

    /// A count of `value` trials, where `value` is at least one.
    pub fn new(value: u32) -> (count: Option<RunCount>)
        ensures
            count is Some <==> value >= 1,
            count is Some ==> count->Some_0@ == value,
    {
        if value >= 1 {
            Some(RunCount { value })
        } else {
            None
        }
    }

    /// The count as a number.
    pub fn get(&self) -> (value: u32)
        ensures
            value == self@,
            value >= 1,
    {
        proof {
            use_type_invariant(self);
        }
        self.value
    }
}

/// What a test case may override of the fuzzing parameters.
#[derive(Debug, Clone, Copy, PartialEq, Eq)]
pub struct RawFuzzerConfig {
    pub runs: Option<RunCount>,
    pub seed: Option<u64>,
}

/// A test case: its name and, where it is to be fuzzed, its overrides.
#[derive(Debug, Clone, PartialEq, Eq)]
pub struct TestCase {
    pub name: String,
    pub fuzzer_config: Option<RawFuzzerConfig>,
}

/// The runner-wide fuzzing defaults.
#[derive(Debug, Clone, Copy, PartialEq, Eq)]
pub struct RunnerDefaults {
    pub fuzzer_runs: RunCount,
    pub fuzzer_seed: u64,
}

/// The parameters one fuzz test runs with.
#[derive(Debug, Clone, Copy, PartialEq, Eq)]
pub struct EffectiveFuzzParams {
    pub run_count: RunCount,
    pub seed: u64,
}

/// Each parameter is the override where the case gives one, else the default.
pub open spec fn effective_params(
    config: Option<RawFuzzerConfig>,
    defaults: RunnerDefaults,
) -> EffectiveFuzzParams {
    match config {
        Some(raw) => EffectiveFuzzParams {
            run_count: match raw.runs {
                Some(runs) => runs,
                None => defaults.fuzzer_runs,
            },
            seed: match raw.seed {
                Some(seed) => seed,
                None => defaults.fuzzer_seed,
            },
        },
        None => EffectiveFuzzParams {
            run_count: defaults.fuzzer_runs,
            seed: defaults.fuzzer_seed,
        },
    }
}

impl EffectiveFuzzParams {
    /// Merges the overrides of a test case with the runner's defaults.
    pub fn resolve(config: &Option<RawFuzzerConfig>, defaults: &RunnerDefaults) -> (params:
        EffectiveFuzzParams)
        ensures
            params == effective_params(*config, *defaults),
            params.run_count@ >= 1,
    {
        let params = match config {
            Some(raw) => EffectiveFuzzParams {
                run_count: match raw.runs {
                    Some(runs) => runs,
                    None => defaults.fuzzer_runs,
                },
                seed: match raw.seed {
                    Some(seed) => seed,
                    None => defaults.fuzzer_seed,
                },
            },
            None => EffectiveFuzzParams {
                run_count: defaults.fuzzer_runs,
                seed: defaults.fuzzer_seed,
            },
        };
        proof {
            use_type_invariant(&params.run_count);
        }
        params
    }
}

} // verus!
