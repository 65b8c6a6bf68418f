//! The record of one test's result as reported to machines, and the labels shown to people.

use vstd::prelude::*;
use vstd::string::*;
use crate::run::{Error, OutcomeKind, TestOutcome, Traceback, TracebackFrame};

verus! {

/// The outcome categories of a report
#[derive(Debug, Clone, Copy, PartialEq, Eq)]
pub enum Outcome {
    Pass,
    Fail,
    Skip,
    ExpectedFailure,
    NonTestFail,
}

/// The report category of an outcome: an assertion failure and any other exception both
/// fail; a module error and a test that cannot be found are failures of the harness.
pub open spec fn category(kind: OutcomeKind) -> Outcome {
    match kind {
        OutcomeKind::Pass { .. } => Outcome::Pass,
        OutcomeKind::Skip { .. } => Outcome::Skip,
        OutcomeKind::Fail { .. } | OutcomeKind::Error { .. } => Outcome::Fail,
        OutcomeKind::ExpectedFailure { .. } => Outcome::ExpectedFailure,
        OutcomeKind::ModuleError { .. } | OutcomeKind::TestNotFound => Outcome::NonTestFail,
    }
}

impl Outcome {
    /// The report category of an outcome
    pub fn from_kind(kind: &OutcomeKind) -> (r: Outcome)
        ensures
            r == category(*kind),
    {
        match kind {
            OutcomeKind::Pass { .. } => Outcome::Pass,
            OutcomeKind::Skip { .. } => Outcome::Skip,
            OutcomeKind::Fail { .. } | OutcomeKind::Error { .. } => Outcome::Fail,
            OutcomeKind::ExpectedFailure { .. } => Outcome::ExpectedFailure,
            OutcomeKind::ModuleError { .. } | OutcomeKind::TestNotFound => Outcome::NonTestFail,
        }
    }
}

/// The label of an outcome in the terminal's list of results.
pub open spec fn label_of(kind: OutcomeKind) -> Seq<char> {
    match kind {
        OutcomeKind::Skip { .. } => "SKIP"@,
        OutcomeKind::Pass { .. } => "PASS"@,
        OutcomeKind::Fail { .. } => "FAIL"@,
        _ => "ERROR"@,
    }
}

/// The label of an outcome in the terminal's list of results
pub fn status_label(kind: &OutcomeKind) -> (r: &'static str)
    ensures
        r@ == label_of(*kind),
{
    match kind {
        OutcomeKind::Skip { .. } => "SKIP",
        OutcomeKind::Pass { .. } => "PASS",
        OutcomeKind::Fail { .. } => "FAIL",
        _ => "ERROR",
    }
}

/// `a` and `b` hold the same text, or are both absent.
pub open spec fn same_opt_text(a: Option<String>, b: Option<String>) -> bool {
    match (a, b) {
        (Some(x), Some(y)) => x@ == y@,
        (None, None) => true,
        _ => false,
    }
}

pub open spec fn same_frame(a: TracebackFrame, b: TracebackFrame) -> bool {
    a.line == b.line && a.function@ == b.function@ && a.file@ == b.file@
}

pub open spec fn same_traceback(a: Option<Traceback>, b: Option<Traceback>) -> bool {
    match (a, b) {
        (Some(x), Some(y)) => x.frames@.len() == y.frames@.len() && forall|i: int|
            0 <= i < x.frames@.len() ==> same_frame(#[trigger] x.frames@[i], y.frames@[i]),
        (None, None) => true,
        _ => false,
    }
}

/// `a` and `b` are copies of one error.
pub open spec fn same_error(a: Error, b: Error) -> bool {
    &&& a.kind@ == b.kind@
    &&& a.message@ == b.message@
    &&& same_traceback(a.traceback, b.traceback)
    &&& same_opt_text(a.stdout, b.stdout)
    &&& same_opt_text(a.stderr, b.stderr)
}

fn copy_opt_text(s: &Option<String>) -> (r: Option<String>)
    ensures
        same_opt_text(r, *s),
{
    match s {
        Some(s) => Some(s.clone()),
        None => None,
    }
}

fn copy_traceback(t: &Option<Traceback>) -> (r: Option<Traceback>)
    ensures
        same_traceback(r, *t),
{
    match t {
        None => None,
        Some(t) => {
            let mut frames: Vec<TracebackFrame> = Vec::new();
            let mut i: usize = 0;
            while i < t.frames.len()
                invariant
                    i <= t.frames@.len(),
                    frames@.len() == i,
                    forall|j: int| 0 <= j < i ==> same_frame(#[trigger] frames@[j], t.frames@[j]),
                decreases t.frames@.len() - i,
            {
                let f = &t.frames[i];
                frames.push(TracebackFrame { line: f.line, function: f.function.clone(), file: f.file.clone() });
                i = i + 1;
            }
            Some(Traceback { frames })
        },
    }
}

/// A copy of an error
pub fn copy_error(e: &Error) -> (r: Error)
    ensures
        same_error(r, *e),
{
    Error {
        kind: e.kind.clone(),
        message: e.message.clone(),
        traceback: copy_traceback(&e.traceback),
        stdout: copy_opt_text(&e.stdout),
        stderr: copy_opt_text(&e.stderr),
    }
}

/// One test's result as a JSON line reports it
#[derive(Debug)]
pub struct JSONTestOutput {
    pub file: String,
    pub test_identifier: String,
    pub outcome: Outcome,
    pub error: Option<Error>,
    /// How long the test call took, in nanoseconds
    pub time: Option<u64>,
}

/// The report of a test's result
pub type TestOutput = JSONTestOutput;

impl JSONTestOutput {
    /// The report of a test's result
    pub fn from_outcome(test: &TestOutcome) -> (r: JSONTestOutput)
        ensures
            r.file@ == test.test@.file(),
            r.test_identifier@ == test.test@.identifier(),
            r.outcome == category(test.outcome),
            r.time == match test.outcome {
                OutcomeKind::Pass { time } => Some(time),
                OutcomeKind::Fail { time, .. } => Some(time),
                OutcomeKind::Error { time, .. } => Some(time),
                OutcomeKind::ExpectedFailure { time } => Some(time),
                _ => None,
            },
            match test.outcome {
                OutcomeKind::Fail { error, .. } | OutcomeKind::Error { error, .. } | OutcomeKind::ModuleError {
                    error,
                } => r.error is Some && same_error(r.error.unwrap(), error),
                _ => r.error is None,
            },
    {
        let error = match test.error() {
            Some(e) => Some(copy_error(e)),
            None => None,
        };
        JSONTestOutput {
            file: String::from_str(test.test.file()),
            test_identifier: test.test.identifier(),
            outcome: Outcome::from_kind(&test.outcome),
            error,
            time: test.time(),
        }
    }
}

} // verus!
