//! The steps that follow a run: whether a trace is saved and profiled, under
//! which file name, and whether coverage is generated.

use crate::outcome::{AnyTestSummary, TrialOutcome};
use std::path::PathBuf;
use vstd::prelude::*;

verus! {

/// A path of the file system. Nothing here looks inside one.
#[verifier::external_type_specification]
#[verifier::external_body]
pub struct ExPathBuf(std::path::PathBuf);

/// Which execution data the runner is asked to keep.
#[derive(Debug, Clone, PartialEq, Eq)]
pub struct ExecutionDataToSave {
    /// Raw traces are saved.
    pub trace: bool,
    /// Saved traces are profiled.
    pub profile: bool,
    /// Coverage is generated from the saved traces.
    pub coverage: bool,
    /// Arguments handed through to the profiler and the coverage tool.
    pub additional_args: Vec<String>,
}

impl ExecutionDataToSave {
    /// Whether traces have to be captured and saved.
    pub fn is_vm_trace_needed(&self) -> (needed: bool)
        ensures
            needed == self.trace,
    {
        self.trace
    }
}

/// What to do for the trace of one test: save it under `file_stem`, then
/// profile the saved file if `run_profiler` is set.
#[derive(Debug, Clone, PartialEq, Eq)]
pub struct TracePlan {
    pub file_stem: String,
    pub run_profiler: bool,
}

/// What the coverage step of a session comes to.
#[derive(Debug, Clone, Copy, PartialEq, Eq)]
pub enum CoverageStep {
    /// Coverage was not asked for.
    Skip,
    /// Coverage was asked for and no trace was saved: warn, run nothing.
    WarnNoTraceData,
    /// Run the coverage tool once, on all `trace_files` saved traces.
    RunTool { trace_files: usize },
}

/// `text` with every occurrence of `from` replaced by `to`, found from left
/// to right and not overlapping.
pub open spec fn replaced(text: Seq<char>, from: Seq<char>, to: Seq<char>) -> Seq<char>
    decreases text.len(),
{
    if from.len() == 0 || text.len() < from.len() {
        text
    } else if text.subrange(0, from.len() as int) == from {
        to + replaced(text.skip(from.len() as int), from, to)
    } else {
        seq![text[0]] + replaced(text.skip(1), from, to)
    }
}

/// Characters no file name may hold: the separators and wildcards of common
/// file systems, and the control characters.
pub open spec fn is_unsafe_char(c: char) -> bool {
    ||| c == '/'
    ||| c == '?'
    ||| c == '<'
    ||| c == '>'
    ||| c == '\\'
    ||| c == ':'
    ||| c == '*'
    ||| c == '|'
    ||| c == '"'
    ||| (c as u32) <= 0x1f
    ||| 0x80 <= (c as u32) <= 0x9f
}

/// No character of `name` is unsafe in a file name.
pub open spec fn is_safe_file_name(name: Seq<char>) -> bool {
    forall|i: int| 0 <= i < name.len() ==> !is_unsafe_char(#[trigger] name[i])
}

/// Every character of `part` occurs in `whole`.
pub open spec fn drawn_from(part: Seq<char>, whole: Seq<char>) -> bool {
    forall|i: int| 0 <= i < part.len() ==> whole.contains(#[trigger] part[i])
}

/// A name that every platform takes as it is: letters, digits and
/// underscores of ASCII only, at most 255 of them, and at least 5, which no
/// device name has.
pub open spec fn is_plain_name(name: Seq<char>) -> bool {
    &&& 5 <= name.len() <= 255
    &&& forall|i: int|
        0 <= i < name.len() ==> {
            let c = #[trigger] name[i];
            ||| 'a' <= c <= 'z'
            ||| 'A' <= c <= 'Z'
            ||| '0' <= c <= '9'
            ||| c == '_'
        }
}

/// Calls `str::replace` of std with a pattern that is not empty: every
/// non-overlapping match of `from`, from the left, is replaced by `to`.
#[verifier::external_body]
fn replace_all(text: &str, from: &str, to: &str) -> (out: String)
    requires
        from@.len() > 0,
    ensures
        out@ == replaced(text@, from@, to@),
{
    text.replace(from, to)
}

/// Calls `sanitize_filename::sanitize`. With its default options it only
/// deletes: every unsafe character goes, names that are reserved or too long
/// lose more, and nothing is put in. Which names count as reserved depends on
/// the platform, so the result is given only for plain names, which it
/// leaves alone everywhere.
#[verifier::external_body]
fn sanitize(name: &str) -> (out: String)
    ensures
        is_safe_file_name(out@),
        drawn_from(out@, name@),
        out@.len() <= name@.len(),
        is_plain_name(name@) ==> out@ == name@,
{
    sanitize_filename::sanitize(name)
}

/// The name of a test with its scope separators collapsed.
pub open spec fn scope_collapsed(name: Seq<char>) -> Seq<char> {
    replaced(name, seq![':', ':'], seq!['_'])
}

/// The file stem under which the trace of the test `name` is saved: the name
/// with each `::` turned into `_`, then stripped of what no file name may
/// hold.
pub fn trace_file_stem(name: &str) -> (stem: String)
    ensures
        is_safe_file_name(stem@),
        drawn_from(stem@, scope_collapsed(name@)),
        stem@.len() <= scope_collapsed(name@).len(),
        is_plain_name(scope_collapsed(name@)) ==> stem@ == scope_collapsed(name@),
{
    proof {
        reveal_strlit("::");
        reveal_strlit("_");
        assert("::"@ =~= seq![':', ':']);
        assert("_"@ =~= seq!['_']);
    }
    let collapsed = replace_all(name, "::", "_");
    sanitize(collapsed.as_str())
}

/// The test whose trace is to be saved, if `result` has one: a single run
/// that passed and recorded trace data, while traces are asked for.
pub open spec fn trace_subject(result: AnyTestSummary, data: ExecutionDataToSave) -> Option<
    String,
> {
    match result {
        AnyTestSummary::Single(TrialOutcome::Passed(run)) => if run.has_trace_data && data.trace {
            Some(run.name)
        } else {
            None
        },
        _ => None,
    }
}

/// The name of the test whose trace is to be saved, if `result` has one.
pub fn traced_test<'a>(result: &'a AnyTestSummary, data: &ExecutionDataToSave) -> (name: Option<
    &'a String,
>)
    ensures
        name is Some <==> trace_subject(*result, *data) is Some,
        name is Some ==> *name->Some_0 == trace_subject(*result, *data)->Some_0,
{
    match result {
        AnyTestSummary::Single(TrialOutcome::Passed(run)) => {
            if run.has_trace_data && data.is_vm_trace_needed() {
                Some(&run.name)
            } else {
                None
            }
        },
        _ => None,
    }
}

/// Decides the trace step for the summary of one test. A plan comes back
/// exactly for a single run that passed with trace data while traces are
/// asked for; it names the file stem made of the test's name and asks for
/// the profiler exactly when profiling is enabled.
pub fn maybe_save_trace_and_profile(
    result: &AnyTestSummary,
    execution_data_to_save: &ExecutionDataToSave,
) -> (plan: Option<TracePlan>)
    ensures
        plan is Some <==> trace_subject(*result, *execution_data_to_save) is Some,
        plan is Some ==> {
            let name = trace_subject(*result, *execution_data_to_save)->Some_0;
            let made = plan->Some_0;
            &&& made.run_profiler == execution_data_to_save.profile
            &&& is_safe_file_name(made.file_stem@)
            &&& drawn_from(made.file_stem@, scope_collapsed(name@))
            &&& made.file_stem@.len() <= scope_collapsed(name@).len()
            &&& is_plain_name(scope_collapsed(name@)) ==> made.file_stem@ == scope_collapsed(
                name@,
            )
        },
{
    match traced_test(result, execution_data_to_save) {
        Some(name) => {
            let file_stem = trace_file_stem(name.as_str());
            Some(TracePlan { file_stem, run_profiler: execution_data_to_save.profile })
        },
        None => None,
    }
}

/// The coverage step for a session with `trace_files` saved traces.
pub open spec fn coverage_step(coverage: bool, trace_files: nat) -> CoverageStep {
    if !coverage {
        CoverageStep::Skip
    } else if trace_files == 0 {
        CoverageStep::WarnNoTraceData
    } else {
        CoverageStep::RunTool { trace_files: trace_files as usize }
    }
}

/// The warning shown when coverage is asked for and no trace was saved.
pub fn no_trace_data_warning() -> (text: &'static str)
    ensures
        text@ == "No trace data to generate coverage from"@,
{
    "No trace data to generate coverage from"
}

/// Decides the coverage step of a whole session from the traces saved in it.
/// The tool runs at most once, and then on the whole batch.
pub fn maybe_generate_coverage(
    execution_data_to_save: &ExecutionDataToSave,
    saved_trace_data_paths: &[PathBuf],
) -> (step: CoverageStep)
    ensures
        step == coverage_step(execution_data_to_save.coverage, saved_trace_data_paths@.len()),
{
    if execution_data_to_save.coverage {
        if saved_trace_data_paths.len() == 0 {
            CoverageStep::WarnNoTraceData
        } else {
            CoverageStep::RunTool { trace_files: saved_trace_data_paths.len() }
        }
    } else {
        CoverageStep::Skip
    }
}

} // verus!
