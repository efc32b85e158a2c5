//! Test driver: strictly sequential correlation of fixtures and events.
//!
//! The driver submits one fixture at a time and consumes exactly one
//! output event per fixture, in submission order. A mismatch or a missing
//! event halts the run at once; no later case is attempted. The functions
//! here are the decision core: the surrounding process performs the HTTP
//! submission and the queue receive, and hands the received events in.

use vstd::prelude::*;
use vstd::string::StringExecFns;

use crate::compare::compare_strict;
use crate::errors::{CommFailure, RunError};
use crate::json::{json_dup, json_parses, parse_json, spec_parse_json, wf_model, Json};

verus! {

/// One collected test case: its directory name and the raw texts of its
/// two fixture files.
#[derive(Debug)]
pub struct TestCase {
    /// Name of the enclosing test-case directory.
    pub name: String,
    /// Raw text of the input fixture.
    pub input_text: String,
    /// Raw text of the expected fixture.
    pub expected_text: String,
}

/// One test case with both fixtures parsed into documents.
#[derive(Debug)]
pub struct ParsedCase {
    /// Name of the enclosing test-case directory.
    pub name: String,
    /// The parsed input fixture, submitted to the engine.
    pub input: Json,
    /// The parsed expected fixture, compared against the engine's output.
    pub expected: Json,
}

/// Parses both fixtures of a case: succeeds exactly when both are valid
/// JSON, and a fixture that is not gives an i/o error naming the case.
pub fn parse_case(raw: &TestCase) -> (r: Result<ParsedCase, RunError>)
    ensures
        (r is Ok) <==> (json_parses(raw.input_text@) && json_parses(raw.expected_text@)),
        r is Ok ==> {
            &&& r->Ok_0.name@ == raw.name@
            &&& r->Ok_0.input@ == spec_parse_json(raw.input_text@)
            &&& r->Ok_0.expected@ == spec_parse_json(raw.expected_text@)
            &&& wf_model(r->Ok_0.input@)
            &&& wf_model(r->Ok_0.expected@)
        },
        r is Err ==> r->Err_0 is Io,
{
    let input = match parse_json(raw.input_text.as_str()) {
        Ok(j) => j,
        Err(e) => {
            let mut m = String::from_str("parsing the input fixture of test case ");
            m.append(raw.name.as_str());
            m.append(": ");
            m.append(e.as_str());
            return Err(RunError::Io { detail: m });
        },
    };
    let expected = match parse_json(raw.expected_text.as_str()) {
        Ok(j) => j,
        Err(e) => {
            let mut m = String::from_str("parsing the expected fixture of test case ");
            m.append(raw.name.as_str());
            m.append(": ");
            m.append(e.as_str());
            return Err(RunError::Io { detail: m });
        },
    };
    Ok(ParsedCase { name: raw.name.clone(), input, expected })
}

/// Judges one case against the event the engine emitted for it: passes
/// exactly when the event equals the expected fixture, and otherwise
/// reports a comparison error naming the case and carrying both payloads
/// with their differences.
pub fn check_case(index: usize, case: &ParsedCase, event: &Json) -> (r: Result<(), RunError>)
    ensures
        (r is Ok) <==> (event@ == case.expected@),
        r is Err ==> (r->Err_0 matches RunError::Comparison { index: i, name, actual, expected, diffs }
            && i == index && name@ == case.name@ && actual@ == event@ && expected@
            == case.expected@ && diffs@.len() > 0),
{
    let diffs = compare_strict(event, &case.expected);
    if diffs.len() == 0 {
        Ok(())
    } else {
        Err(
            RunError::Comparison {
                index,
                name: case.name.clone(),
                actual: json_dup(event),
                expected: json_dup(&case.expected),
                diffs,
            },
        )
    }
}

/// The communication error reported when the queue closes or runs dry
/// before an event arrives for the named case.
pub fn no_output_error(index: usize, case: &ParsedCase) -> (r: RunError)
    ensures
        (r matches RunError::Communication { failure } && (failure matches CommFailure::NoOutput {
            index: i,
            name,
        } && i == index && name@ == case.name@)),
{
    RunError::Communication {
        failure: CommFailure::NoOutput { index, name: case.name.clone() },
    }
}

/// Case `i` holds when an event arrived for it and equals its expected
/// fixture.
pub open spec fn case_ok(cases: Seq<ParsedCase>, events: Seq<Json>, i: int) -> bool {
    i < events.len() && events[i]@ == cases[i].expected@
}

/// How a run over the collected cases ended.
pub enum RunOutcome {
    /// Every case passed.
    Passed,
    /// The run halted at the named case with the given error.
    Failed { index: usize, error: RunError },
}

/// A finished run: its outcome and how many events were consumed.
pub struct RunReport {
    /// How the run ended.
    pub outcome: RunOutcome,
    /// How many events the driver consumed: exactly one per attempted
    /// case that received one.
    pub consumed: usize,
}

/// A finished run after teardown: the driver's report, untouched, and
/// the teardown's own failure, if any, beside it.
pub struct FinalReport {
    /// The driver's report, exactly as it stood before teardown.
    pub report: RunReport,
    /// A teardown failure, reported as a secondary error: it never
    /// replaces the primary outcome.
    pub teardown: Option<RunError>,
}

/// Folds the teardown result into the final report. The primary outcome
/// passes through unchanged whatever the teardown did; a teardown failure
/// is kept beside it as a container-lifecycle error, never dropped and
/// never allowed to mask the result.
pub fn finish_run(report: RunReport, stop_result: Result<(), String>) -> (r: FinalReport)
    ensures
        r.report == report,
        stop_result is Ok <==> r.teardown is None,
        stop_result matches Err(d) ==> (r.teardown matches Some(e) && (e
            matches RunError::ContainerLifecycle { detail } && detail@
            == "stopping the container failed: "@ + d@)),
{
    match stop_result {
        Ok(()) => FinalReport { report, teardown: None },
        Err(d) => {
            let mut m = String::from_str("stopping the container failed: ");
            m.append(d.as_str());
            FinalReport {
                report,
                teardown: Some(RunError::ContainerLifecycle { detail: m }),
            }
        },
    }
}

/// Runs every case in order against the events the engine emitted, one
/// event per case.
///
/// The run passes exactly when every case received an event equal to its
/// expected fixture, consuming exactly one event per case. The first
/// failing case halts the run: no later case is examined and no later
/// event is consumed. A case whose event never arrived fails with a
/// communication error instead of a comparison error.
pub fn run_cases(cases: &Vec<ParsedCase>, events: &Vec<Json>) -> (r: RunReport)
    ensures
        (r.outcome is Passed) <==> (forall|i: int|
            0 <= i < cases@.len() ==> case_ok(cases@, events@, i)),
        r.outcome is Passed ==> r.consumed == cases@.len(),
        r.outcome matches RunOutcome::Failed { index, error } ==> {
            &&& index < cases@.len()
            &&& !case_ok(cases@, events@, index as int)
            &&& (forall|j: int| 0 <= j < index ==> case_ok(cases@, events@, j))
            &&& ((index as int) < events@.len() ==> (error matches RunError::Comparison {
                index: i2,
                name,
                actual,
                expected,
                diffs,
            } && i2 == index && name@ == cases@[index as int].name@ && actual@
                == events@[index as int]@ && expected@ == cases@[index as int].expected@
                && diffs@.len() > 0)
                && r.consumed == index + 1)
            &&& ((index as int) >= events@.len() ==> (error matches RunError::Communication {
                failure,
            } && (failure matches CommFailure::NoOutput { index: i2, name } && i2 == index
                && name@ == cases@[index as int].name@)) && r.consumed == index)
        },
{
    let mut i: usize = 0;
    while i < cases.len()
        invariant
            i <= cases@.len(),
            forall|j: int| 0 <= j < i ==> case_ok(cases@, events@, j),
        decreases cases@.len() - i,
    {
        if i >= events.len() {
            proof {
                assert(!case_ok(cases@, events@, i as int));
            }
            let error = no_output_error(i, &cases[i]);
            return RunReport { outcome: RunOutcome::Failed { index: i, error }, consumed: i };
        }
        match check_case(i, &cases[i], &events[i]) {
            Ok(()) => {},
            Err(error) => {
                proof {
                    assert(!case_ok(cases@, events@, i as int));
                }
                return RunReport {
                    outcome: RunOutcome::Failed { index: i, error },
                    consumed: i + 1,
                };
            },
        }
        i += 1;
    }
    RunReport { outcome: RunOutcome::Passed, consumed: i }
}

} // verus!
