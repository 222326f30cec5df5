//! The fuzzing orchestrator as a state machine: the caller spawns and awaits
//! the trial tasks, and asks the session after each of their events what to
//! do next.

use crate::outcome::{
    all_passed, completed_count, has_failure, is_first_failure, lemma_completed_count_bounds,
    lemma_first_failure_unique, lemma_full_pass, resolve_verdict, sweep_result, FuzzError,
    FuzzVerdict, TrialOutcome,
};
use crate::params::{effective_params, EffectiveFuzzParams, RawFuzzerConfig, RunnerDefaults};
use rand::rngs::StdRng;
use rand::SeedableRng;
use vstd::prelude::*;

verus! {

/// The generator that the trials of one fuzz test draw from.
#[verifier::external_type_specification]
#[verifier::external_body]
pub struct ExStdRng(rand::rngs::StdRng);

/// The generator that `StdRng::seed_from_u64` of rand makes from `seed`: its
/// state before the first draw.
pub uninterp spec fn generator_seeded_with(seed: u64) -> StdRng;

/// Calls `StdRng::seed_from_u64` of rand. The call expands the seed into the
/// key of a ChaCha generator by fixed arithmetic, so the generator that comes
/// back is determined by the seed alone. What it will draw is not stated.
#[verifier::external_body]
fn seeded_generator(seed: u64) -> (rng: StdRng)
    ensures
        rng == generator_seeded_with(seed),
{
    StdRng::seed_from_u64(seed)
}

/// The one generator of a fuzz test: the one made from the resolved seed and
/// from nothing else, so that two fuzz tests with equal parameters start
/// from equal generators. The caller puts it behind a lock and shares it
/// among the trials.
pub fn shared_rng(params: &EffectiveFuzzParams) -> (rng: StdRng)
    ensures
        rng == generator_seeded_with(params.seed),
{
    seeded_generator(params.seed)
}

/// What the caller observed of the trial tasks.
#[derive(Debug, Clone, PartialEq, Eq)]
pub enum TrialEvent {
    /// A trial task completed with this outcome.
    Finished(TrialOutcome),
    /// A trial task ended abnormally.
    Aborted,
    /// No trial task is left to await.
    Exhausted,
}

/// What the caller is to do next.
#[derive(Debug, Clone, Copy, PartialEq, Eq)]
pub enum Action {
    /// Spawn this many trials, all drawing from one generator with this seed,
    /// then await the first to complete.
    SpawnTrials { run_count: u32, seed: u64 },
    /// Await the next trial to complete.
    AwaitNext,
    /// Close the stop signal, await nothing more and return the session's result.
    CloseStopSignal,
    /// Return the session's result.
    Return,
}

/// One fuzz test in progress or over.
#[derive(Debug)]
pub enum FuzzSession {
    /// Trials are in flight; `results` holds the outcomes observed so far.
    Draining { params: EffectiveFuzzParams, results: Vec<TrialOutcome> },
    /// The fuzz test is over.
    Done { stop_signal_closed: bool, result: Result<FuzzVerdict, FuzzError> },
}

/// A session as a value.
pub enum SessionView {
    Draining { run_count: u32, seed: u64, results: Seq<TrialOutcome> },
    Done { stop_signal_closed: bool, result: Result<FuzzVerdict, FuzzError> },
}

impl View for FuzzSession {
    type V = SessionView;

    open spec fn view(&self) -> SessionView {
        match *self {
            FuzzSession::Draining { params, results } => SessionView::Draining {
                run_count: params.run_count@,
                seed: params.seed,
                results: results@,
            },
            FuzzSession::Done { stop_signal_closed, result } => SessionView::Done {
                stop_signal_closed,
                result,
            },
        }
    }
}

/// The session a fuzz test starts in and what it asks for first. With the
/// outer signal closed it is over at once, interrupted, and spawns nothing.
pub open spec fn start_spec(
    config: Option<RawFuzzerConfig>,
    defaults: RunnerDefaults,
    outer_closed: bool,
) -> (SessionView, Action) {
    if outer_closed {
        (
            SessionView::Done { stop_signal_closed: false, result: Ok(FuzzVerdict::Interrupted) },
            Action::Return,
        )
    } else {
        let params = effective_params(config, defaults);
        (
            SessionView::Draining {
                run_count: params.run_count@,
                seed: params.seed,
                results: Seq::empty(),
            },
            Action::SpawnTrials { run_count: params.run_count@, seed: params.seed },
        )
    }
}

/// The session after an event and what it asks for next.
///
/// While draining, an outcome is appended to those observed; a failed one
/// ends the sweep and closes the stop signal, any other keeps it going. An
/// abnormal end of a task ends the sweep with an error. When no task is left
/// the sweep ends with its result. A session that is over stays as it is.
pub open spec fn step_spec(state: SessionView, event: TrialEvent) -> (SessionView, Action) {
    match state {
        SessionView::Draining { run_count, seed, results } => match event {
            TrialEvent::Finished(outcome) => {
                let observed = results.push(outcome);
                if outcome is Failed {
                    (
                        SessionView::Done {
                            stop_signal_closed: true,
                            result: sweep_result(observed, run_count as int),
                        },
                        Action::CloseStopSignal,
                    )
                } else {
                    (
                        SessionView::Draining { run_count, seed, results: observed },
                        Action::AwaitNext,
                    )
                }
            },
            TrialEvent::Aborted => (
                SessionView::Done {
                    stop_signal_closed: false,
                    result: Err(FuzzError::TaskFailed),
                },
                Action::Return,
            ),
            TrialEvent::Exhausted => (
                SessionView::Done {
                    stop_signal_closed: false,
                    result: sweep_result(results, run_count as int),
                },
                Action::Return,
            ),
        },
        SessionView::Done { .. } => (state, Action::Return),
    }
}

/// What holds of every session that was started and stepped: while it
/// drains no failure has been observed, and once it is over with a failure
/// as its verdict the stop signal is closed.
pub open spec fn well_formed(state: SessionView) -> bool {
    match state {
        SessionView::Draining { results, .. } => !has_failure(results),
        SessionView::Done { stop_signal_closed, result } => (result matches Ok(
            FuzzVerdict::Failed(_),
        )) ==> stop_signal_closed,
    }
}

/// Number of trials that an action has the caller spawn.
pub open spec fn trials_spawned(action: Action) -> nat {
    match action {
        Action::SpawnTrials { run_count, .. } => run_count as nat,
        _ => 0,
    }
}

/// A step keeps a session well formed.
pub proof fn lemma_step_keeps_well_formed(state: SessionView, event: TrialEvent)
    ensures
        well_formed(state) ==> well_formed(step_spec(state, event).0),
{
    match state {
        SessionView::Draining { run_count, seed, results } => {
            match event {
                TrialEvent::Finished(outcome) => {
                    let observed = results.push(outcome);
                    if !(outcome is Failed) && well_formed(state) {
                        assert(!has_failure(observed)) by {
                            if has_failure(observed) {
                                let i = choose|i: int|
                                    0 <= i < observed.len() && #[trigger] observed[i] is Failed;
                                if i < results.len() {
                                    assert(results[i] is Failed);
                                }
                            }
                        }
                    }
                },
                _ => {},
            }
        },
        _ => {},
    }
}

/// The session after a sequence of events, taken one by one.
pub open spec fn run_spec(state: SessionView, events: Seq<TrialEvent>) -> SessionView
    decreases events.len(),
{
    if events.len() == 0 {
        state
    } else {
        step_spec(run_spec(state, events.drop_last()), events.last()).0
    }
}

/// The events of trials that complete with `outcomes`, in that order.
pub open spec fn completions(outcomes: Seq<TrialOutcome>) -> Seq<TrialEvent> {
    Seq::new(outcomes.len(), |i: int| TrialEvent::Finished(outcomes[i]))
}

/// A session that is over stays as it is, whatever happens next: its result
/// stands, and a stop signal that was closed stays closed.
pub proof fn lemma_done_is_final(state: SessionView, events: Seq<TrialEvent>)
    requires
        state is Done,
    ensures
        run_spec(state, events) == state,
    decreases events.len(),
{
    if events.len() > 0 {
        lemma_done_is_final(state, events.drop_last());
    }
}

/// With the outer signal closed at the start the fuzz test is interrupted:
/// no trial is spawned, and no later event changes that.
pub proof fn lemma_closed_at_start(
    config: Option<RawFuzzerConfig>,
    defaults: RunnerDefaults,
    events: Seq<TrialEvent>,
)
    ensures
        trials_spawned(start_spec(config, defaults, true).1) == 0,
        run_spec(start_spec(config, defaults, true).0, events) == (SessionView::Done {
            stop_signal_closed: false,
            result: Ok(FuzzVerdict::Interrupted),
        }),
{
    lemma_done_is_final(start_spec(config, defaults, true).0, events);
}

/// While no trial has failed the session keeps draining and holds the
/// outcomes in the order in which they were observed.
pub proof fn lemma_drains_in_order(run_count: u32, seed: u64, outcomes: Seq<TrialOutcome>)
    requires
        !has_failure(outcomes),
    ensures
        run_spec(
            SessionView::Draining { run_count, seed, results: Seq::empty() },
            completions(outcomes),
        ) == (SessionView::Draining { run_count, seed, results: outcomes }),
    decreases outcomes.len(),
{
    if outcomes.len() == 0 {
        assert(outcomes =~= Seq::empty());
    } else {
        let before = outcomes.drop_last();
        assert(!has_failure(before)) by {
            if has_failure(before) {
                let i = choose|i: int| 0 <= i < before.len() && #[trigger] before[i] is Failed;
                assert(outcomes[i] is Failed);
            }
        }
        lemma_drains_in_order(run_count, seed, before);
        assert(completions(outcomes).drop_last() =~= completions(before));
        assert(completions(outcomes).last() == TrialEvent::Finished(outcomes.last()));
        assert(!(outcomes.last() is Failed)) by {
            if outcomes.last() is Failed {
                assert(outcomes[outcomes.len() - 1] is Failed);
            }
        }
        assert(before.push(outcomes.last()) =~= outcomes);
    }
}

/// A fuzz test in which each of the `run_count` trials passes ends as
/// passed, with the stop signal left open.
pub proof fn lemma_all_trials_pass(run_count: u32, seed: u64, outcomes: Seq<TrialOutcome>)
    requires
        run_count >= 1,
        outcomes.len() == run_count,
        all_passed(outcomes),
    ensures
        completed_count(outcomes) == run_count,
        run_spec(
            SessionView::Draining { run_count, seed, results: Seq::empty() },
            completions(outcomes).push(TrialEvent::Exhausted),
        ) == (SessionView::Done { stop_signal_closed: false, result: Ok(FuzzVerdict::Passed) }),
{
    lemma_full_pass(outcomes, run_count as int);
    lemma_drains_in_order(run_count, seed, outcomes);
    let events = completions(outcomes).push(TrialEvent::Exhausted);
    assert(events.drop_last() =~= completions(outcomes));
}

/// A sweep without a failure in which fewer trials completed than were asked
/// for ends as interrupted, never as passed, whatever the trials reported.
pub proof fn lemma_partial_sweep_is_interrupted(
    run_count: u32,
    seed: u64,
    outcomes: Seq<TrialOutcome>,
)
    requires
        !has_failure(outcomes),
        completed_count(outcomes) < run_count,
    ensures
        run_spec(
            SessionView::Draining { run_count, seed, results: Seq::empty() },
            completions(outcomes).push(TrialEvent::Exhausted),
        ) == (SessionView::Done {
            stop_signal_closed: false,
            result: Ok(FuzzVerdict::Interrupted),
        }),
{
    lemma_drains_in_order(run_count, seed, outcomes);
    let events = completions(outcomes).push(TrialEvent::Exhausted);
    assert(events.drop_last() =~= completions(outcomes));
}

/// The first failed trial ends the fuzz test: the stop signal is closed, the
/// verdict is that failure, and what the remaining trials report is
/// discarded. The count of completed trials must fit the counting type.
pub proof fn lemma_first_failure_ends_sweep(
    run_count: u32,
    seed: u64,
    outcomes: Seq<TrialOutcome>,
    i: int,
)
    requires
        is_first_failure(outcomes, i),
        i < u32::MAX,
    ensures
        run_spec(
            SessionView::Draining { run_count, seed, results: Seq::empty() },
            completions(outcomes),
        ) == (SessionView::Done {
            stop_signal_closed: true,
            result: Ok(FuzzVerdict::Failed(outcomes[i]->Failed_0)),
        }),
    decreases outcomes.len(),
{
    let before = outcomes.drop_last();
    assert(completions(outcomes).drop_last() =~= completions(before));
    assert(completions(outcomes).last() == TrialEvent::Finished(outcomes.last()));
    if i == outcomes.len() - 1 {
        assert(!has_failure(before)) by {
            if has_failure(before) {
                let j = choose|j: int| 0 <= j < before.len() && #[trigger] before[j] is Failed;
                assert(outcomes[j] is Failed);
            }
        }
        lemma_drains_in_order(run_count, seed, before);
        assert(before.push(outcomes.last()) =~= outcomes);
        lemma_first_failure_unique(outcomes, i);
        lemma_completed_count_bounds(outcomes);
    } else {
        assert(is_first_failure(before, i)) by {
            assert(before[i] == outcomes[i]);
            assert forall|j: int| 0 <= j < i implies !(#[trigger] before[j] is Failed) by {
                assert(before[j] == outcomes[j]);
            }
        }
        lemma_first_failure_ends_sweep(run_count, seed, before, i);
        assert(before[i] == outcomes[i]);
    }
}

impl FuzzSession {
    /// Starts the fuzz test of a case with the overrides `config`, given
    /// whether the outer cancellation signal is already closed.
    pub fn start(
        config: &Option<RawFuzzerConfig>,
        defaults: &RunnerDefaults,
        outer_closed: bool,
    ) -> (started: (FuzzSession, Action))
        ensures
            (started.0@, started.1) == start_spec(*config, *defaults, outer_closed),
            outer_closed ==> trials_spawned(started.1) == 0,
            !outer_closed ==> trials_spawned(started.1) >= 1,
            well_formed(started.0@),
    {
        if outer_closed {
            (
                FuzzSession::Done {
                    stop_signal_closed: false,
                    result: Ok(FuzzVerdict::Interrupted),
                },
                Action::Return,
            )
        } else {
            let params = EffectiveFuzzParams::resolve(config, defaults);
            let run_count = params.run_count.get();
            let seed = params.seed;
            (
                FuzzSession::Draining { params, results: Vec::new() },
                Action::SpawnTrials { run_count, seed },
            )
        }
    }

    /// Takes one event of the trial tasks.
    pub fn step(self, event: TrialEvent) -> (next: (FuzzSession, Action))
        ensures
            (next.0@, next.1) == step_spec(self@, event),
            well_formed(self@) ==> well_formed(next.0@),
    {
        proof {
            lemma_step_keeps_well_formed(self@, event);
        }
        match self {
            FuzzSession::Draining { params, results } => match event {
                TrialEvent::Finished(outcome) => {
                    let failed = match &outcome {
                        TrialOutcome::Failed(_) => true,
                        _ => false,
                    };
                    let mut observed = results;
                    observed.push(outcome);
                    if failed {
                        let result = resolve_verdict(observed, params.run_count.get());
                        (
                            FuzzSession::Done { stop_signal_closed: true, result },
                            Action::CloseStopSignal,
                        )
                    } else {
                        (FuzzSession::Draining { params, results: observed }, Action::AwaitNext)
                    }
                },
                TrialEvent::Aborted => (
                    FuzzSession::Done {
                        stop_signal_closed: false,
                        result: Err(FuzzError::TaskFailed),
                    },
                    Action::Return,
                ),
                TrialEvent::Exhausted => {
                    let result = resolve_verdict(results, params.run_count.get());
                    (FuzzSession::Done { stop_signal_closed: false, result }, Action::Return)
                },
            },
            FuzzSession::Done { stop_signal_closed, result } => (
                FuzzSession::Done { stop_signal_closed, result },
                Action::Return,
            ),
        }
    }

    /// The result of a session that is over; none while it is draining.
    pub fn into_result(self) -> (result: Option<Result<FuzzVerdict, FuzzError>>)
        ensures
            result == match self@ {
                SessionView::Done { result: r, .. } => Some(r),
                SessionView::Draining { .. } => None::<Result<FuzzVerdict, FuzzError>>,
            },
    {
        match self {
            FuzzSession::Done { result, .. } => Some(result),
            FuzzSession::Draining { .. } => None,
        }
    }
}

} // verus!
