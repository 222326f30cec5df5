//! Trial outcomes, fuzz verdicts and the fold from one to the other.

use vstd::prelude::*;

verus! {

/// What is kept of a trial that passed.
#[derive(Debug, Clone, PartialEq, Eq)]
pub struct PassedRun {
    /// Name of the test case.
    pub name: String,
    /// Whether the trial recorded trace data.
    pub has_trace_data: bool,
}

/// What is kept of a trial that failed.
#[derive(Debug, Clone, PartialEq, Eq)]
pub struct Failure {
    /// Name of the test case.
    pub name: String,
    /// Message of the failure, where the trial gave one.
    pub message: Option<String>,
    /// The randomized arguments the trial ran with.
    pub arguments: Vec<String>,
}

/// Outcome of one trial.
#[derive(Debug, Clone, PartialEq, Eq)]
pub enum TrialOutcome {
    Passed(PassedRun),
    Failed(Failure),
    Interrupted,
    Skipped,
}

/// Verdict on a whole fuzz test.
#[derive(Debug, Clone, PartialEq, Eq)]
pub enum FuzzVerdict {
    Passed,
    Failed(Failure),
    Interrupted,
}

/// Summary of one test case, whichever way it ran.
#[derive(Debug, Clone, PartialEq, Eq)]
pub enum AnyTestSummary {
    Single(TrialOutcome),
    Fuzzing(FuzzVerdict),
}

/// Why a fuzz test ended without a verdict.
#[derive(Debug, Clone, Copy, PartialEq, Eq)]
pub enum FuzzError {
    /// A trial task ended abnormally.
    TaskFailed,
    /// The number of completed trials does not fit the counting type.
    CountOverflow,
}

/// A trial is completed when it reached a decision: passed or failed.
pub open spec fn is_completed(o: TrialOutcome) -> bool {
    o is Passed || o is Failed
}

/// Number of completed trials among `s`.
pub open spec fn completed_count(s: Seq<TrialOutcome>) -> nat
    decreases s.len(),
{
    if s.len() == 0 {
        0
    } else {
        completed_count(s.drop_last()) + if is_completed(s.last()) {
            1nat
        } else {
            0nat
        }
    }
}

/// Some outcome of `s` is a failure.
pub open spec fn has_failure(s: Seq<TrialOutcome>) -> bool {
    exists|i: int| 0 <= i < s.len() && #[trigger] s[i] is Failed
}

/// Some outcome of `s` is an interruption.
pub open spec fn has_interrupted(s: Seq<TrialOutcome>) -> bool {
    exists|i: int| 0 <= i < s.len() && #[trigger] s[i] is Interrupted
}

/// Every outcome of `s` is a pass.
pub open spec fn all_passed(s: Seq<TrialOutcome>) -> bool {
    forall|i: int| 0 <= i < s.len() ==> #[trigger] s[i] is Passed
}

/// `i` is the position of the first failed outcome of `s`.
pub open spec fn is_first_failure(s: Seq<TrialOutcome>, i: int) -> bool {
    &&& 0 <= i < s.len()
    &&& s[i] is Failed
    &&& forall|j: int| 0 <= j < i ==> !(#[trigger] s[j] is Failed)
}

/// Position of the first failed outcome of `s`, where there is one.
pub open spec fn first_failure_index(s: Seq<TrialOutcome>) -> int {
    choose|i: int| is_first_failure(s, i)
}

/// The fold of a sequence of outcomes, by precedence: a failure wins and the
/// first one is reported; then an interruption; a pass takes a non-empty
/// sequence of passes only; anything else counts as interrupted.
pub open spec fn aggregate(s: Seq<TrialOutcome>) -> FuzzVerdict {
    if has_failure(s) {
        FuzzVerdict::Failed(s[first_failure_index(s)]->Failed_0)
    } else if has_interrupted(s) {
        FuzzVerdict::Interrupted
    } else if s.len() > 0 && all_passed(s) {
        FuzzVerdict::Passed
    } else {
        FuzzVerdict::Interrupted
    }
}

/// The verdict of a sweep of `run_count` trials of which `s` was observed:
/// the fold, except that a pass stands only if every trial completed.
pub open spec fn final_verdict(s: Seq<TrialOutcome>, run_count: int) -> FuzzVerdict {
    if aggregate(s) is Passed && completed_count(s) != run_count {
        FuzzVerdict::Interrupted
    } else {
        aggregate(s)
    }
}

/// What a sweep of `run_count` trials ends with once `s` was observed: its
/// verdict, or an error where the completed trials cannot be counted.
pub open spec fn sweep_result(s: Seq<TrialOutcome>, run_count: int) -> Result<
    FuzzVerdict,
    FuzzError,
> {
    if completed_count(s) > u32::MAX {
        Err(FuzzError::CountOverflow)
    } else {
        Ok(final_verdict(s, run_count))
    }
}

/// A sequence has at most one first failure.
pub proof fn lemma_first_failure_unique(s: Seq<TrialOutcome>, i: int)
    requires
        is_first_failure(s, i),
    ensures
        has_failure(s),
        first_failure_index(s) == i,
{
    let c = first_failure_index(s);
    assert(is_first_failure(s, c));
    if c < i {
        assert(!(s[c] is Failed));
    }
    if i < c {
        assert(!(s[i] is Failed));
    }
}

/// The completed count never exceeds the length, and reaches it exactly when
/// no outcome is interrupted or skipped.
pub proof fn lemma_completed_count_bounds(s: Seq<TrialOutcome>)
    ensures
        completed_count(s) <= s.len(),
        completed_count(s) == s.len() <==> (forall|i: int|
            0 <= i < s.len() ==> is_completed(#[trigger] s[i])),
    decreases s.len(),
{
    if s.len() > 0 {
        let t = s.drop_last();
        lemma_completed_count_bounds(t);
        assert(forall|i: int| 0 <= i < t.len() ==> t[i] == s[i]);
        if completed_count(s) == s.len() {
            assert forall|i: int| 0 <= i < s.len() implies is_completed(#[trigger] s[i]) by {
                if i < t.len() {
                    assert(is_completed(t[i]));
                }
            }
        }
        if forall|i: int| 0 <= i < s.len() ==> is_completed(#[trigger] s[i]) {
            assert forall|i: int| 0 <= i < t.len() implies is_completed(#[trigger] t[i]) by {
                assert(is_completed(s[i]));
            }
            assert(is_completed(s.last()));
        }
    }
}

/// Some failed outcome of a sequence that has one is the first.
pub proof fn lemma_first_failure_exists(s: Seq<TrialOutcome>, k: int)
    requires
        0 <= k < s.len(),
        s[k] is Failed,
    ensures
        is_first_failure(s, first_failure_index(s)),
        first_failure_index(s) <= k,
    decreases k,
{
    if exists|j: int| 0 <= j < k && #[trigger] s[j] is Failed {
        let j = choose|j: int| 0 <= j < k && #[trigger] s[j] is Failed;
        lemma_first_failure_exists(s, j);
    } else {
        assert(is_first_failure(s, k));
        lemma_first_failure_unique(s, k);
    }
}

/// A sequence with a failed outcome folds to a failure that carries the
/// details of the first failed outcome, whatever else the sequence holds and
/// however many trials were asked for.
pub proof fn lemma_failure_wins(s: Seq<TrialOutcome>, run_count: int)
    requires
        has_failure(s),
    ensures
        is_first_failure(s, first_failure_index(s)),
        aggregate(s) == FuzzVerdict::Failed(s[first_failure_index(s)]->Failed_0),
        final_verdict(s, run_count) == aggregate(s),
{
    let k = choose|i: int| 0 <= i < s.len() && #[trigger] s[i] is Failed;
    lemma_first_failure_exists(s, k);
}

/// The kind of a verdict depends on which kinds of outcome occur, not on
/// their order: a failure where one occurs, a pass where there are outcomes
/// and all of them pass, an interruption otherwise.
pub proof fn lemma_verdict_by_presence(s: Seq<TrialOutcome>)
    ensures
        aggregate(s) is Failed <==> has_failure(s),
        aggregate(s) is Passed <==> s.len() > 0 && all_passed(s),
        aggregate(s) is Interrupted <==> !has_failure(s) && !(s.len() > 0 && all_passed(s)),
{
    if s.len() > 0 && all_passed(s) {
        if has_failure(s) {
            let i = choose|i: int| 0 <= i < s.len() && #[trigger] s[i] is Failed;
            assert(s[i] is Passed);
        }
        if has_interrupted(s) {
            let i = choose|i: int| 0 <= i < s.len() && #[trigger] s[i] is Interrupted;
            assert(s[i] is Passed);
        }
    }
}

/// A sweep of at least one trial in which every trial passed is a pass, and
/// all its trials count as completed.
pub proof fn lemma_full_pass(s: Seq<TrialOutcome>, run_count: int)
    requires
        run_count >= 1,
        s.len() == run_count,
        all_passed(s),
    ensures
        completed_count(s) == run_count,
        aggregate(s) == FuzzVerdict::Passed,
        final_verdict(s, run_count) == FuzzVerdict::Passed,
{
    lemma_completed_count_bounds(s);
    assert forall|i: int| 0 <= i < s.len() implies is_completed(#[trigger] s[i]) by {
        assert(s[i] is Passed);
    }
    assert(!has_failure(s)) by {
        if has_failure(s) {
            let i = choose|i: int| 0 <= i < s.len() && #[trigger] s[i] is Failed;
            assert(s[i] is Passed);
        }
    }
    assert(!has_interrupted(s)) by {
        if has_interrupted(s) {
            let i = choose|i: int| 0 <= i < s.len() && #[trigger] s[i] is Interrupted;
            assert(s[i] is Passed);
        }
    }
}

/// A fold that passes over fewer completed trials than were asked for is
/// turned into an interruption.
pub proof fn lemma_partial_pass_is_interrupted(s: Seq<TrialOutcome>, run_count: int)
    requires
        aggregate(s) is Passed,
        completed_count(s) < run_count,
    ensures
        final_verdict(s, run_count) == FuzzVerdict::Interrupted,
{
}

/// A sweep passes only if exactly as many trials as were asked for were
/// observed and each of them passed.
pub proof fn lemma_pass_is_complete(s: Seq<TrialOutcome>, run_count: int)
    requires
        final_verdict(s, run_count) is Passed,
    ensures
        s.len() == run_count,
        completed_count(s) == run_count,
        all_passed(s),
{
    lemma_completed_count_bounds(s);
    assert forall|i: int| 0 <= i < s.len() implies is_completed(#[trigger] s[i]) by {
        assert(s[i] is Passed);
    }
}

/// Counts the trials of `results` that completed.
pub fn count_completed(results: &Vec<TrialOutcome>) -> (count: usize)
    ensures
        count == completed_count(results@),
{
    let mut count: usize = 0;
    let mut i: usize = 0;
    while i < results.len()
        invariant
            i <= results.len(),
            count <= i,
            count == completed_count(results@.take(i as int)),
        decreases results.len() - i,
    {
        proof {
            assert(results@.take(i + 1).drop_last() =~= results@.take(i as int));
        }
        match &results[i] {
            TrialOutcome::Passed(_) => {
                count = count + 1;
            },
            TrialOutcome::Failed(_) => {
                count = count + 1;
            },
            _ => {},
        }
        i = i + 1;
    }
    proof {
        assert(results@.take(i as int) =~= results@);
    }
    count
}

/// Folds the outcomes of a fuzz test, in the order they were observed, into
/// its verdict.
pub fn aggregate_outcomes(results: Vec<TrialOutcome>) -> (verdict: FuzzVerdict)
    ensures
        verdict == aggregate(results@),
{
    let mut pending = results;
    let ghost s = pending@;
    let mut interrupted = false;
    let mut only_passed = true;
    let mut i: usize = 0;
    while i < pending.len()
        invariant
            pending@ == s,
            results@ == s,
            i <= s.len(),
            forall|j: int| 0 <= j < i ==> !(#[trigger] s[j] is Failed),
            interrupted <==> exists|j: int| 0 <= j < i && #[trigger] s[j] is Interrupted,
            only_passed <==> forall|j: int| 0 <= j < i ==> #[trigger] s[j] is Passed,
        decreases s.len() - i,
    {
        let failed = match &pending[i] {
            TrialOutcome::Failed(_) => true,
            _ => false,
        };
        if failed {
            proof {
                lemma_first_failure_unique(s, i as int);
            }
            let hit = pending.remove(i);
            match hit {
                TrialOutcome::Failed(details) => {
                    return FuzzVerdict::Failed(details);
                },
                _ => {
                    return FuzzVerdict::Interrupted;
                },
            }
        }
        match &pending[i] {
            TrialOutcome::Interrupted => {
                interrupted = true;
                only_passed = false;
            },
            TrialOutcome::Skipped => {
                only_passed = false;
            },
            _ => {},
        }
        i = i + 1;
    }
    if interrupted {
        FuzzVerdict::Interrupted
    } else if only_passed && pending.len() > 0 {
        FuzzVerdict::Passed
    } else {
        FuzzVerdict::Interrupted
    }
}

/// Counts the completed trials of `results` in the verdict's counting type.
/// Fails exactly when the count does not fit.
pub fn completed_runs(results: &Vec<TrialOutcome>) -> (runs: Result<u32, FuzzError>)
    ensures
        completed_count(results@) <= u32::MAX ==> runs == Ok::<u32, FuzzError>(
            completed_count(results@) as u32,
        ),
        completed_count(results@) > u32::MAX ==> runs == Err::<u32, FuzzError>(
            FuzzError::CountOverflow,
        ),
{
    let count = count_completed(results);
    if count > 0xFFFF_FFFFusize {
        Err(FuzzError::CountOverflow)
    } else {
        Ok(count as u32)
    }
}

/// Verdict of a sweep of `run_count` trials whose observed outcomes are
/// `results`: the fold of the outcomes, turned into an interruption where it
/// is a pass but not every trial completed.
pub fn resolve_verdict(results: Vec<TrialOutcome>, run_count: u32) -> (verdict: Result<
    FuzzVerdict,
    FuzzError,
>)
    ensures
        verdict == sweep_result(results@, run_count as int),
{
    let runs = match completed_runs(&results) {
        Ok(runs) => runs,
        Err(e) => {
            return Err(e);
        },
    };
    let folded = aggregate_outcomes(results);
    match folded {
        FuzzVerdict::Passed => {
            if runs != run_count {
                Ok(FuzzVerdict::Interrupted)
            } else {
                Ok(FuzzVerdict::Passed)
            }
        },
        other => Ok(other),
    }
}

} // verus!
