use forge_runner::{
    run_for_test_case, shared_rng, Action, AnyTestSummary, EffectiveFuzzParams, Failure,
    FuzzError, FuzzSession, FuzzVerdict, PassedRun, RawFuzzerConfig, RunCount, RunMode,
    RunnerDefaults, TestCase, TestCaseFilter, TrialEvent, TrialOutcome,
};
use rand::RngCore;

fn runs(n: u32) -> RunCount {
    RunCount::new(n).unwrap()
}

fn defaults() -> RunnerDefaults {
    RunnerDefaults { fuzzer_runs: runs(256), fuzzer_seed: 7 }
}

fn passed() -> TrialOutcome {
    TrialOutcome::Passed(PassedRun { name: "pkg::fuzzed".to_string(), has_trace_data: false })
}

fn failure() -> Failure {
    Failure { name: "pkg::fuzzed".to_string(), message: None, arguments: vec!["3".to_string()] }
}

fn config(n: u32, seed: u64) -> Option<RawFuzzerConfig> {
    Some(RawFuzzerConfig { runs: Some(runs(n)), seed: Some(seed) })
}

#[test]
fn run_count_is_at_least_one() {
    assert!(RunCount::new(0).is_none());
    assert_eq!(RunCount::new(1).unwrap().get(), 1);
    assert_eq!(RunCount::new(u32::MAX).unwrap().get(), u32::MAX);
}

#[test]
fn overrides_win_over_defaults() {
    let params = EffectiveFuzzParams::resolve(&config(5, 42), &defaults());
    assert_eq!(params.run_count.get(), 5);
    assert_eq!(params.seed, 42);
}

#[test]
fn missing_overrides_fall_back_one_by_one() {
    let only_runs = Some(RawFuzzerConfig { runs: Some(runs(9)), seed: None });
    let params = EffectiveFuzzParams::resolve(&only_runs, &defaults());
    assert_eq!((params.run_count.get(), params.seed), (9, 7));
    let only_seed = Some(RawFuzzerConfig { runs: None, seed: Some(99) });
    let params = EffectiveFuzzParams::resolve(&only_seed, &defaults());
    assert_eq!((params.run_count.get(), params.seed), (256, 99));
    let params = EffectiveFuzzParams::resolve(&None, &defaults());
    assert_eq!((params.run_count.get(), params.seed), (256, 7));
}

#[test]
fn all_five_trials_pass() {
    let (mut session, action) = FuzzSession::start(&config(5, 42), &defaults(), false);
    assert_eq!(action, Action::SpawnTrials { run_count: 5, seed: 42 });
    for _ in 0..5 {
        let (next, action) = session.step(TrialEvent::Finished(passed()));
        assert_eq!(action, Action::AwaitNext);
        session = next;
    }
    let (session, action) = session.step(TrialEvent::Exhausted);
    assert_eq!(action, Action::Return);
    assert_eq!(session.into_result(), Some(Ok(FuzzVerdict::Passed)));
}

#[test]
fn third_trial_fails_and_stops_the_sweep() {
    let (session, action) = FuzzSession::start(&config(10, 1), &defaults(), false);
    assert_eq!(action, Action::SpawnTrials { run_count: 10, seed: 1 });
    let (session, action) = session.step(TrialEvent::Finished(passed()));
    assert_eq!(action, Action::AwaitNext);
    let (session, action) = session.step(TrialEvent::Finished(passed()));
    assert_eq!(action, Action::AwaitNext);
    let (session, action) = session.step(TrialEvent::Finished(TrialOutcome::Failed(failure())));
    assert_eq!(action, Action::CloseStopSignal);
    match &session {
        FuzzSession::Done { stop_signal_closed, .. } => assert!(*stop_signal_closed),
        FuzzSession::Draining { .. } => panic!("the sweep went on after a failure"),
    }
    let (session, action) = session.step(TrialEvent::Finished(passed()));
    assert_eq!(action, Action::Return);
    assert_eq!(session.into_result(), Some(Ok(FuzzVerdict::Failed(failure()))));
}

#[test]
fn closed_outer_signal_interrupts_before_any_trial() {
    let (session, action) = FuzzSession::start(&config(4, 1), &defaults(), true);
    assert_eq!(action, Action::Return);
    match &session {
        FuzzSession::Done { stop_signal_closed, .. } => assert!(!*stop_signal_closed),
        FuzzSession::Draining { .. } => panic!("trials were started"),
    }
    assert_eq!(session.into_result(), Some(Ok(FuzzVerdict::Interrupted)));
}

#[test]
fn undercounted_pass_is_interrupted() {
    let (session, _) = FuzzSession::start(&config(3, 1), &defaults(), false);
    let (session, _) = session.step(TrialEvent::Finished(passed()));
    let (session, _) = session.step(TrialEvent::Finished(passed()));
    let (session, action) = session.step(TrialEvent::Exhausted);
    assert_eq!(action, Action::Return);
    assert_eq!(session.into_result(), Some(Ok(FuzzVerdict::Interrupted)));
}

#[test]
fn skipped_trial_keeps_the_sweep_from_passing() {
    let (session, _) = FuzzSession::start(&config(2, 1), &defaults(), false);
    let (session, action) = session.step(TrialEvent::Finished(TrialOutcome::Skipped));
    assert_eq!(action, Action::AwaitNext);
    let (session, _) = session.step(TrialEvent::Finished(passed()));
    let (session, _) = session.step(TrialEvent::Exhausted);
    assert_eq!(session.into_result(), Some(Ok(FuzzVerdict::Interrupted)));
}

#[test]
fn aborted_task_is_an_error() {
    let (session, _) = FuzzSession::start(&None, &defaults(), false);
    let (session, _) = session.step(TrialEvent::Finished(passed()));
    let (session, action) = session.step(TrialEvent::Aborted);
    assert_eq!(action, Action::Return);
    assert_eq!(session.into_result(), Some(Err(FuzzError::TaskFailed)));
}

#[test]
fn draining_session_has_no_result() {
    let (session, action) = FuzzSession::start(&None, &defaults(), false);
    assert_eq!(action, Action::SpawnTrials { run_count: 256, seed: 7 });
    assert_eq!(session.into_result(), None);
}

#[test]
fn finished_session_ignores_later_events() {
    let (session, _) = FuzzSession::start(&config(1, 1), &defaults(), false);
    let (session, _) = session.step(TrialEvent::Finished(passed()));
    let (session, _) = session.step(TrialEvent::Exhausted);
    let (session, action) = session.step(TrialEvent::Aborted);
    assert_eq!(action, Action::Return);
    let (session, action) = session.step(TrialEvent::Finished(TrialOutcome::Failed(failure())));
    assert_eq!(action, Action::Return);
    assert_eq!(session.into_result(), Some(Ok(FuzzVerdict::Passed)));
}

#[test]
fn shared_rng_follows_the_seed() {
    let params = EffectiveFuzzParams::resolve(&config(5, 42), &defaults());
    let mut first = shared_rng(&params);
    let mut second = shared_rng(&params);
    let other_params = EffectiveFuzzParams::resolve(&config(5, 43), &defaults());
    let mut other = shared_rng(&other_params);
    let a = [first.next_u64(), first.next_u64(), first.next_u64()];
    let b = [second.next_u64(), second.next_u64(), second.next_u64()];
    let c = [other.next_u64(), other.next_u64(), other.next_u64()];
    assert_eq!(a, b);
    assert_ne!(a, c);
}

#[test]
fn case_without_fuzzer_config_runs_once() {
    let case = TestCase { name: "pkg::plain".to_string(), fuzzer_config: None };
    assert_eq!(run_for_test_case(&case), RunMode::Single);
}

#[test]
fn case_with_fuzzer_config_is_fuzzed() {
    let empty = TestCase {
        name: "pkg::fuzzed".to_string(),
        fuzzer_config: Some(RawFuzzerConfig { runs: None, seed: None }),
    };
    assert_eq!(run_for_test_case(&empty), RunMode::Fuzzing);
    let full = TestCase { name: "pkg::fuzzed".to_string(), fuzzer_config: config(3, 3) };
    assert_eq!(run_for_test_case(&full), RunMode::Fuzzing);
}

#[test]
fn summaries_keep_what_they_wrap() {
    assert_eq!(AnyTestSummary::single(passed()), AnyTestSummary::Single(passed()));
    assert_eq!(
        AnyTestSummary::fuzzing(FuzzVerdict::Interrupted),
        AnyTestSummary::Fuzzing(FuzzVerdict::Interrupted)
    );
}

struct OnlyFuzzed;

impl TestCaseFilter for OnlyFuzzed {
    fn should_be_run(&self, test_case: &TestCase) -> bool {
        test_case.fuzzer_config.is_some()
    }
}

#[test]
fn filter_is_asked_per_case() {
    let plain = TestCase { name: "a".to_string(), fuzzer_config: None };
    let fuzzed = TestCase { name: "b".to_string(), fuzzer_config: config(2, 2) };
    assert!(!OnlyFuzzed.should_be_run(&plain));
    assert!(OnlyFuzzed.should_be_run(&fuzzed));
}

#[test]
fn equal_seeds_give_equal_generators() {
    let with_five = EffectiveFuzzParams::resolve(&config(5, 42), &defaults());
    let with_nine = EffectiveFuzzParams::resolve(&config(9, 42), &defaults());
    assert_eq!(shared_rng(&with_five), shared_rng(&with_nine));
    let other_seed = EffectiveFuzzParams::resolve(&config(5, 7), &defaults());
    assert_ne!(shared_rng(&with_five), shared_rng(&other_seed));
    assert_eq!(shared_rng(&other_seed), shared_rng(&EffectiveFuzzParams::resolve(&None, &defaults())));
}
