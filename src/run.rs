//! Running one test: the outcomes, and the decisions that drive a test to its outcome.
//!
//! The interpreter work itself (loading a module, fetching attributes, calling) is done
//! by the host; [`RunState::step`] takes what each piece of work observed and says what
//! to do next, until the outcome is known.

use vstd::prelude::*;
use crate::discovery::Test;
use crate::markers::{Annotations, skip_reason, expects_failure, has_skip_annotation, is_expecting_failure};
use crate::text::{has_prefix, starts_with, same_text};

verus! {

/// One frame of a traceback
#[derive(Debug, Clone)]
pub struct TracebackFrame {
    pub line: i32,
    pub function: String,
    pub file: String,
}

/// The frames of a traceback, outermost first
#[derive(Debug, Clone)]
pub struct Traceback {
    pub frames: Vec<TracebackFrame>,
}

/// An error which occurred whilst executing interpreted code
#[derive(Debug, Clone)]
pub struct Error {
    /// The exception's class name
    pub kind: String,
    pub message: String,
    pub traceback: Option<Traceback>,
    /// What the test wrote to standard output before the error, when it was captured
    pub stdout: Option<String>,
    /// What the test wrote to standard error before the error, when it was captured
    pub stderr: Option<String>,
}

/// An exception class that reports a failed assertion.
pub open spec fn is_assertion_kind(kind: Seq<char>) -> bool {
    kind == "AssertionError"@
}

/// An exception class that asks for the test to be skipped.
pub open spec fn is_skip_kind(kind: Seq<char>) -> bool {
    has_prefix(kind, "Skip"@)
}

impl Error {
    pub fn is_assertion_error(&self) -> (r: bool)
        ensures
            r == is_assertion_kind(self.kind@),
    {
        same_text(self.kind.as_str(), "AssertionError")
    }

    pub fn is_skip_exception(&self) -> (r: bool)
        ensures
            r == is_skip_kind(self.kind@),
    {
        starts_with(self.kind.as_str(), "Skip")
    }
}

/// The different outcomes of running a test; times are in nanoseconds
#[derive(Debug, Clone)]
pub enum OutcomeKind {
    /// Test ran successfully with no errors
    Pass { time: u64 },
    /// The test was skipped, and not run
    Skip { reason: String },
    /// An assertion error was raised
    Fail { error: Error, time: u64 },
    /// Any other exception was raised
    Error { error: Error, time: u64 },
    /// Problem setting up module before the test was run
    ModuleError { error: Error },
    /// Expected the test to fail but it succeeded
    ExpectedFailure { time: u64 },
    /// Couldn't find test (likely due to static test def being changed at runtime)
    TestNotFound,
}

/// Every outcome but a pass or a skip counts as failing.
pub open spec fn is_failing(o: OutcomeKind) -> bool {
    !(o is Pass || o is Skip)
}

impl OutcomeKind {
    pub fn module_error(error: Error) -> (r: Self)
        ensures
            r == (OutcomeKind::ModuleError { error }),
    {
        OutcomeKind::ModuleError { error }
    }
}

/// The result of a test being run
#[derive(Debug, Clone)]
pub struct TestOutcome {
    pub test: Test,
    pub outcome: OutcomeKind,
}

impl TestOutcome {
    /// How long the test call took, for the outcomes of a test that was called
    pub fn time(&self) -> (r: Option<u64>)
        ensures
            r == match self.outcome {
                OutcomeKind::Pass { time } => Some(time),
                OutcomeKind::Fail { time, .. } => Some(time),
                OutcomeKind::Error { time, .. } => Some(time),
                OutcomeKind::ExpectedFailure { time } => Some(time),
                _ => None,
            },
    {
        match &self.outcome {
            OutcomeKind::Pass { time } => Some(*time),
            OutcomeKind::Fail { time, .. } => Some(*time),
            OutcomeKind::Error { time, .. } => Some(*time),
            OutcomeKind::ExpectedFailure { time } => Some(*time),
            _ => None,
        }
    }

    pub fn is_fail(&self) -> (r: bool)
        ensures
            r == is_failing(self.outcome),
    {
        !matches!(self.outcome, OutcomeKind::Pass { .. } | OutcomeKind::Skip { .. })
    }

    /// The error of an outcome that carries one
    pub fn error(&self) -> (r: Option<&Error>)
        ensures
            r == match self.outcome {
                OutcomeKind::Fail { error, .. } => Some(&error),
                OutcomeKind::Error { error, .. } => Some(&error),
                OutcomeKind::ModuleError { error } => Some(&error),
                _ => None,
            },
    {
        match &self.outcome {
            OutcomeKind::Fail { error, .. } => Some(error),
            OutcomeKind::Error { error, .. } => Some(error),
            OutcomeKind::ModuleError { error } => Some(error),
            _ => None,
        }
    }
}

/// The outcome of a test call that returned (`raised` is `None`) or raised, given whether
/// the test was expected to fail.
pub open spec fn spec_classify(raised: Option<Error>, expecting_failure: bool, time: u64) -> OutcomeKind {
    match raised {
        None => if expecting_failure {
            OutcomeKind::ExpectedFailure { time }
        } else {
            OutcomeKind::Pass { time }
        },
        Some(error) => if expecting_failure {
            OutcomeKind::Pass { time }
        } else if is_skip_kind(error.kind@) {
            OutcomeKind::Skip { reason: error.message }
        } else if is_assertion_kind(error.kind@) {
            OutcomeKind::Fail { error, time }
        } else {
            OutcomeKind::Error { error, time }
        },
    }
}

/// Classify the result of calling a test.
pub fn classify(raised: Option<Error>, expecting_failure: bool, time: u64) -> (r: OutcomeKind)
    ensures
        r == spec_classify(raised, expecting_failure, time),
{
    match raised {
        None => if expecting_failure {
            OutcomeKind::ExpectedFailure { time }
        } else {
            OutcomeKind::Pass { time }
        },
        Some(error) => {
            if expecting_failure {
                OutcomeKind::Pass { time }
            } else if error.is_skip_exception() {
                OutcomeKind::Skip { reason: error.message }
            } else if error.is_assertion_error() {
                OutcomeKind::Fail { error, time }
            } else {
                OutcomeKind::Error { error, time }
            }
        },
    }
}

/// Where a run of one test stands.
#[derive(Debug, Clone)]
pub enum RunState {
    /// The test's file is being executed as a module
    LoadingModule { method: bool },
    /// The test function is being fetched from the module
    FindingFunction,
    /// The test class is being fetched from the module
    FindingClass,
    /// The test class is being instantiated with no arguments
    Instantiating,
    /// The class instance's annotations are being read
    InspectingInstance,
    /// The test method is being fetched from the instance
    FindingMethod,
    /// The test function's or method's annotations are being read
    InspectingTarget { method: bool },
    /// `setUp` is being called, when the instance has it
    SettingUp { expecting_failure: bool },
    /// The test itself is being called
    Calling { method: bool, expecting_failure: bool },
    /// `tearDown` is being called, when the instance has it; the verdict of the call is kept
    TearingDown { verdict: OutcomeKind },
    /// The outcome is known
    Finished { outcome: OutcomeKind },
}

/// The piece of work that the host does next.
#[derive(Debug, Clone, Copy, PartialEq, Eq)]
pub enum Action {
    LoadModule,
    FetchFunction,
    FetchClass,
    Instantiate,
    InspectInstance,
    FetchMethod,
    InspectTarget,
    /// Call `setUp` if the instance has it
    SetUp,
    /// Call the test, with its output redirected to fresh buffers, and time the call
    CallTest,
    /// Call `tearDown` if the instance has it
    TearDown,
    /// The outcome is known: report it
    Report,
}

/// What the host observed when it did the last piece of work.
#[derive(Debug, Clone)]
pub enum Event {
    /// The work succeeded (a hook that does not exist counts as done)
    Done,
    /// The attribute to fetch does not exist
    Missing,
    /// The interpreter raised an exception
    Raised { error: Error },
    /// The annotations of the object to inspect
    Inspected { annotations: Annotations },
    /// The test call returned, after `time` nanoseconds
    Returned { time: u64 },
    /// The test call raised, after `time` nanoseconds
    CallRaised { error: Error, time: u64 },
}

/// The events that each state can take.
pub open spec fn spec_accepts(s: RunState, e: Event) -> bool {
    match s {
        RunState::LoadingModule { .. } | RunState::Instantiating | RunState::SettingUp { .. }
        | RunState::TearingDown { .. } => e is Done || e is Raised,
        RunState::FindingFunction | RunState::FindingClass | RunState::FindingMethod => e is Done
            || e is Missing || e is Raised,
        RunState::InspectingInstance | RunState::InspectingTarget { .. } => e is Inspected,
        RunState::Calling { .. } => e is Returned || e is CallRaised,
        RunState::Finished { .. } => true,
    }
}

pub open spec fn finish(outcome: OutcomeKind) -> (RunState, Action) {
    (RunState::Finished { outcome }, Action::Report)
}

/// The next state and the work it asks for, from a state that inspects no annotations.
pub open spec fn spec_step(s: RunState, e: Event) -> (RunState, Action) {
    match s {
        RunState::LoadingModule { method } => match e {
            Event::Raised { error } => finish(OutcomeKind::ModuleError { error }),
            _ => if method {
                (RunState::FindingClass, Action::FetchClass)
            } else {
                (RunState::FindingFunction, Action::FetchFunction)
            },
        },
        RunState::FindingFunction => match e {
            Event::Done => (RunState::InspectingTarget { method: false }, Action::InspectTarget),
            _ => finish(OutcomeKind::TestNotFound),
        },
        RunState::FindingClass => match e {
            Event::Done => (RunState::Instantiating, Action::Instantiate),
            _ => finish(OutcomeKind::TestNotFound),
        },
        RunState::Instantiating => match e {
            Event::Raised { error } => finish(OutcomeKind::ModuleError { error }),
            _ => (RunState::InspectingInstance, Action::InspectInstance),
        },
        RunState::InspectingInstance => (s, Action::InspectInstance),
        RunState::FindingMethod => match e {
            Event::Done => (RunState::InspectingTarget { method: true }, Action::InspectTarget),
            _ => finish(OutcomeKind::TestNotFound),
        },
        RunState::InspectingTarget { .. } => (s, Action::InspectTarget),
        RunState::SettingUp { expecting_failure } => match e {
            Event::Raised { error } => finish(OutcomeKind::ModuleError { error }),
            _ => (RunState::Calling { method: true, expecting_failure }, Action::CallTest),
        },
        RunState::Calling { method, expecting_failure } => {
            let verdict = match e {
                Event::Returned { time } => spec_classify(None, expecting_failure, time),
                Event::CallRaised { error, time } => spec_classify(
                    Some(error),
                    expecting_failure,
                    time,
                ),
                _ => OutcomeKind::TestNotFound,
            };
            if method {
                (RunState::TearingDown { verdict }, Action::TearDown)
            } else {
                finish(verdict)
            }
        },
        RunState::TearingDown { verdict } => match e {
            Event::Raised { error } => finish(OutcomeKind::ModuleError { error }),
            _ => finish(verdict),
        },
        RunState::Finished { outcome } => finish(outcome),
    }
}

/// `r` reports a skip with the given reason.
pub open spec fn is_skip_report(r: (RunState, Action), reason: Seq<char>) -> bool {
    r.1 == Action::Report && match r.0 {
        RunState::Finished { outcome: OutcomeKind::Skip { reason: given } } => given@ == reason,
        _ => false,
    }
}

/// The state after inspecting the annotations of the test function or method.
pub open spec fn after_target(method: bool, a: Annotations) -> (RunState, Action) {
    if method {
        (RunState::SettingUp { expecting_failure: expects_failure(a) }, Action::SetUp)
    } else {
        (RunState::Calling { method: false, expecting_failure: expects_failure(a) }, Action::CallTest)
    }
}

/// `r` is the next state, and the work it asks for, when `s` takes the event `e`.
pub open spec fn steps_to(s: RunState, e: Event, r: (RunState, Action)) -> bool {
    match s {
        RunState::InspectingInstance => match e {
            Event::Inspected { annotations } => match skip_reason(annotations) {
                Some(reason) => is_skip_report(r, reason),
                None => r == (RunState::FindingMethod, Action::FetchMethod),
            },
            _ => false,
        },
        RunState::InspectingTarget { method } => match e {
            Event::Inspected { annotations } => match skip_reason(annotations) {
                Some(reason) => is_skip_report(r, reason),
                None => r == after_target(method, annotations),
            },
            _ => false,
        },
        _ => r == spec_step(s, e),
    }
}

/// The first state of a run of `test`, and the work it asks for.
pub open spec fn spec_begin(test: Test) -> (RunState, Action) {
    (RunState::LoadingModule { method: test is Method }, Action::LoadModule)
}

impl RunState {
    /// Start running `test`: the first state, and the work it asks for.
    pub fn begin(test: &Test) -> (r: (RunState, Action))
        ensures
            r == spec_begin(*test),
    {
        (RunState::LoadingModule { method: matches!(test, Test::Method { .. }) }, Action::LoadModule)
    }

    /// Whether this state can take `event`.
    pub fn accepts(&self, event: &Event) -> (r: bool)
        ensures
            r == spec_accepts(*self, *event),
    {
        match self {
            RunState::LoadingModule { .. } | RunState::Instantiating | RunState::SettingUp { .. }
            | RunState::TearingDown { .. } => matches!(event, Event::Done | Event::Raised { .. }),
            RunState::FindingFunction | RunState::FindingClass | RunState::FindingMethod => matches!(
                event,
                Event::Done | Event::Missing | Event::Raised { .. }
            ),
            RunState::InspectingInstance | RunState::InspectingTarget { .. } => matches!(
                event,
                Event::Inspected { .. }
            ),
            RunState::Calling { .. } => matches!(event, Event::Returned { .. } | Event::CallRaised { .. }),
            RunState::Finished { .. } => true,
        }
    }

    /// The outcome, once the run has finished.
    pub fn outcome(self) -> (r: Option<OutcomeKind>)
        ensures
            r == match self {
                RunState::Finished { outcome } => Some(outcome),
                _ => None,
            },
    {
        match self {
            RunState::Finished { outcome } => Some(outcome),
            _ => None,
        }
    }

    /// Take what the last piece of work observed, and move to the next state.
    pub fn step(self, event: Event) -> (r: (RunState, Action))
        requires
            spec_accepts(self, event),
        ensures
            steps_to(self, event, r),
    {
        match self {
            RunState::LoadingModule { method } => match event {
                Event::Raised { error } => finished(OutcomeKind::module_error(error)),
                _ => if method {
                    (RunState::FindingClass, Action::FetchClass)
                } else {
                    (RunState::FindingFunction, Action::FetchFunction)
                },
            },
            RunState::FindingFunction => match event {
                Event::Done => (RunState::InspectingTarget { method: false }, Action::InspectTarget),
                _ => finished(OutcomeKind::TestNotFound),
            },
            RunState::FindingClass => match event {
                Event::Done => (RunState::Instantiating, Action::Instantiate),
                _ => finished(OutcomeKind::TestNotFound),
            },
            RunState::Instantiating => match event {
                Event::Raised { error } => finished(OutcomeKind::module_error(error)),
                _ => (RunState::InspectingInstance, Action::InspectInstance),
            },
            RunState::InspectingInstance => match event {
                Event::Inspected { annotations } => match has_skip_annotation(&annotations) {
                    Some(reason) => finished(OutcomeKind::Skip { reason }),
                    None => (RunState::FindingMethod, Action::FetchMethod),
                },
                _ => (RunState::InspectingInstance, Action::InspectInstance),
            },
            RunState::FindingMethod => match event {
                Event::Done => (RunState::InspectingTarget { method: true }, Action::InspectTarget),
                _ => finished(OutcomeKind::TestNotFound),
            },
            RunState::InspectingTarget { method } => match event {
                Event::Inspected { annotations } => match has_skip_annotation(&annotations) {
                    Some(reason) => finished(OutcomeKind::Skip { reason }),
                    None => {
                        let expecting_failure = is_expecting_failure(&annotations);
                        if method {
                            (RunState::SettingUp { expecting_failure }, Action::SetUp)
                        } else {
                            (RunState::Calling { method: false, expecting_failure }, Action::CallTest)
                        }
                    },
                },
                _ => (RunState::InspectingTarget { method }, Action::InspectTarget),
            },
            RunState::SettingUp { expecting_failure } => match event {
                Event::Raised { error } => finished(OutcomeKind::module_error(error)),
                _ => (RunState::Calling { method: true, expecting_failure }, Action::CallTest),
            },
            RunState::Calling { method, expecting_failure } => {
                let verdict = match event {
                    Event::Returned { time } => classify(None, expecting_failure, time),
                    Event::CallRaised { error, time } => classify(Some(error), expecting_failure, time),
                    _ => OutcomeKind::TestNotFound,
                };
                if method {
                    (RunState::TearingDown { verdict }, Action::TearDown)
                } else {
                    finished(verdict)
                }
            },
            RunState::TearingDown { verdict } => match event {
                Event::Raised { error } => finished(OutcomeKind::module_error(error)),
                _ => finished(verdict),
            },
            RunState::Finished { outcome } => finished(outcome),
        }
    }
}

fn finished(outcome: OutcomeKind) -> (r: (RunState, Action))
    ensures
        r == finish(outcome),
{
    (RunState::Finished { outcome }, Action::Report)
}

/// A test with no skip or expected-failure annotation goes on to be called without
/// expecting failure; then a call that returns passes, one that raises an assertion error
/// fails, and one that raises any other exception (one that does not ask for a skip) errs.
pub proof fn lemma_unmarked_outcomes(method: bool, a: Annotations, time: u64, error: Error)
    requires
        !a.skip,
        !a.expecting_failure,
        a.marks is None,
    ensures
        steps_to(
            RunState::InspectingTarget { method },
            Event::Inspected { annotations: a },
            after_target(method, a),
        ),
        !expects_failure(a),
        spec_classify(None, false, time) == (OutcomeKind::Pass { time }),
        is_assertion_kind(error.kind@) ==> spec_classify(Some(error), false, time) == (OutcomeKind::Fail { error, time }),
        !is_assertion_kind(error.kind@) && !is_skip_kind(error.kind@) ==> spec_classify(Some(error), false, time)
            == (OutcomeKind::Error { error, time }),
{
    reveal_strlit("AssertionError");
    reveal_strlit("Skip");
    if is_assertion_kind(error.kind@) {
        assert(error.kind@.subrange(0, 4)[0] == 'A');
    }
}

/// For a test marked as expected to fail, a call that returns gives an expected failure,
/// and a call that raises any exception gives a pass.
pub proof fn lemma_expected_failure_inverts(time: u64, error: Error)
    ensures
        spec_classify(None, true, time) == (OutcomeKind::ExpectedFailure { time }),
        spec_classify(Some(error), true, time) == (OutcomeKind::Pass { time }),
{
}

/// A skip annotation ends the run with a skip at once, whether or not the object is also
/// marked as expected to fail: neither `setUp`, the test, nor `tearDown` is called.
pub proof fn lemma_skip_first(s: RunState, a: Annotations, r: (RunState, Action))
    requires
        s is InspectingInstance || s is InspectingTarget,
        skip_reason(a) is Some,
        steps_to(s, Event::Inspected { annotations: a }, r),
    ensures
        r.1 == Action::Report,
        r.0 is Finished,
        is_skip_report(r, skip_reason(a).unwrap()),
{
}

} // verus!
