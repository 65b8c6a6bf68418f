use xc::discovery::Test;
use xc::markers::{Annotations, Marker};
use xc::output::{JSONTestOutput, Outcome};
use xc::run::{classify, Action, Error, Event, OutcomeKind, RunState, TestOutcome, Traceback, TracebackFrame};
use xc::summary::TestSummary;

fn function(file: &str, name: &str) -> Test {
    Test::Function { file: file.to_string(), function: name.to_string() }
}

fn method(file: &str, class: &str, name: &str) -> Test {
    Test::Method { file: file.to_string(), class: class.to_string(), method: name.to_string() }
}

fn plain() -> Annotations {
    Annotations { skip: false, skip_why: None, expecting_failure: false, marks: None }
}

fn marked(name: &str, condition: Option<bool>, reason: Option<&str>) -> Annotations {
    Annotations {
        skip: false,
        skip_why: None,
        expecting_failure: false,
        marks: Some(vec![Marker {
            name: name.to_string(),
            condition,
            reason: reason.map(|r| r.to_string()),
        }]),
    }
}

fn error(kind: &str, message: &str, stdout: &str, stderr: &str) -> Error {
    Error {
        kind: kind.to_string(),
        message: message.to_string(),
        traceback: None,
        stdout: Some(stdout.to_string()),
        stderr: Some(stderr.to_string()),
    }
}

/// Feed `events` to a run of `test`, checking the work asked for at each step, and
/// return the outcome.
fn drive(test: &Test, script: Vec<(Action, Event)>) -> OutcomeKind {
    let (mut state, mut action) = RunState::begin(test);
    for (expected, event) in script {
        assert_eq!(action, expected);
        assert!(state.accepts(&event));
        let (next, next_action) = state.step(event);
        state = next;
        action = next_action;
    }
    assert_eq!(action, Action::Report);
    state.outcome().unwrap()
}

/// A module-level function test whose module loads and whose function exists.
fn run_function(test: &Test, annotations: Annotations, call: Event) -> TestOutcome {
    let outcome = drive(
        test,
        vec![
            (Action::LoadModule, Event::Done),
            (Action::FetchFunction, Event::Done),
            (Action::InspectTarget, Event::Inspected { annotations }),
            (Action::CallTest, call),
        ],
    );
    TestOutcome { test: test.clone(), outcome }
}

#[test]
fn expected_error() {
    let file = "./examples/expected_error.py";
    let will_fail = run_function(
        &function(file, "test_will_fail"),
        marked("xfail", Some(true), None),
        Event::CallRaised { error: error("ZeroDivisionError", "division by zero", "", ""), time: 5 },
    );
    let wont_fail = run_function(
        &function(file, "test_wont_fail"),
        marked("xfail", Some(true), None),
        Event::Returned { time: 4 },
    );
    let results: Vec<JSONTestOutput> =
        vec![JSONTestOutput::from_outcome(&will_fail), JSONTestOutput::from_outcome(&wont_fail)];

    assert_eq!(results.len(), 2);
    assert_eq!(results.len(), 2);
    let (test_will_fail, test_wont_fail) = if results[0].test_identifier == "test_will_fail" {
        (&results[0], &results[1])
    } else {
        (&results[1], &results[0])
    };

    assert_eq!(test_will_fail.outcome, Outcome::Pass);
    assert_eq!(test_wont_fail.outcome, Outcome::ExpectedFailure);
}

#[test]
fn captures_stdout() {
    let file = "./examples/captures_stdout.py";
    let stdout_test = run_function(
        &function(file, "test_stdout"),
        plain(),
        Event::CallRaised { error: error("AssertionError", "", "hello world into stdout\n", ""), time: 3 },
    );
    let stderr_test = run_function(
        &function(file, "test_stderr"),
        plain(),
        Event::CallRaised { error: error("AssertionError", "", "", "hello world\ninto stderr"), time: 3 },
    );
    let results = vec![JSONTestOutput::from_outcome(&stdout_test), JSONTestOutput::from_outcome(&stderr_test)];

    assert_eq!(results.len(), 2);
    let (test_stdout, test_stderr) = if results[0].test_identifier == "test_stdout" {
        (&results[0], &results[1])
    } else {
        (&results[1], &results[0])
    };

    assert_eq!(test_stdout.outcome, Outcome::Fail);
    assert_eq!(test_stdout.error.as_ref().unwrap().stdout.as_deref(), Some("hello world into stdout\n"));
    assert_eq!(test_stdout.error.as_ref().unwrap().stderr.as_deref(), Some(""));

    assert_eq!(test_stderr.outcome, Outcome::Fail);
    assert_eq!(test_stderr.error.as_ref().unwrap().stdout.as_deref(), Some(""));
    assert_eq!(test_stderr.error.as_ref().unwrap().stderr.as_deref(), Some("hello world\ninto stderr"));
}

#[test]
fn passing_function_summary() {
    let outcome = run_function(&function("add.py", "test_add"), plain(), Event::Returned { time: 7 });
    assert!(matches!(outcome.outcome, OutcomeKind::Pass { time: 7 }));
    let summary = TestSummary::from_parts(vec![outcome], &vec![None], 10);
    assert_eq!((summary.passed, summary.failed, summary.skipped), (1, 0, 0));
    assert_eq!(summary.tests.len(), 1);
    assert!(summary.is_successful());
}

#[test]
fn failing_assertion_has_one_frame() {
    let mut raised = error("AssertionError", "", "", "");
    raised.traceback = Some(Traceback {
        frames: vec![TracebackFrame { line: 2, function: "test_add".to_string(), file: "/t/add.py".to_string() }],
    });
    let outcome = run_function(&function("/t/add.py", "test_add"), plain(), Event::CallRaised { error: raised, time: 1 });
    match &outcome.outcome {
        OutcomeKind::Fail { error, time } => {
            assert_eq!(error.kind, "AssertionError");
            assert_eq!(*time, 1);
            let frames = &error.traceback.as_ref().unwrap().frames;
            assert_eq!(frames.len(), 1);
            assert_eq!(frames[0].line, 2);
            assert_eq!(frames[0].function, "test_add");
            assert_eq!(frames[0].file, "/t/add.py");
        }
        other => panic!("unexpected outcome {other:?}"),
    }
    assert!(outcome.is_fail());
    assert_eq!(outcome.time(), Some(1));
    assert_eq!(outcome.error().unwrap().kind, "AssertionError");
}

#[test]
fn other_exception_is_error() {
    let outcome = run_function(
        &function("a.py", "test_type"),
        plain(),
        Event::CallRaised { error: error("TypeError", "bad operand", "", ""), time: 2 },
    );
    assert!(matches!(outcome.outcome, OutcomeKind::Error { .. }));
    assert_eq!(JSONTestOutput::from_outcome(&outcome).outcome, Outcome::Fail);
}

#[test]
fn skip_exception_is_skip() {
    let outcome = run_function(
        &function("a.py", "test_skipped"),
        plain(),
        Event::CallRaised { error: error("SkipTest", "not today", "", ""), time: 2 },
    );
    match outcome.outcome {
        OutcomeKind::Skip { reason } => assert_eq!(reason, "not today"),
        other => panic!("unexpected outcome {other:?}"),
    }
}

#[test]
fn failing_set_up_is_module_error() {
    let test = method("m.py", "TestAdd", "test_add");
    let outcome = drive(
        &test,
        vec![
            (Action::LoadModule, Event::Done),
            (Action::FetchClass, Event::Done),
            (Action::Instantiate, Event::Done),
            (Action::InspectInstance, Event::Inspected { annotations: plain() }),
            (Action::FetchMethod, Event::Done),
            (Action::InspectTarget, Event::Inspected { annotations: plain() }),
            (Action::SetUp, Event::Raised { error: error("ValueError", "no set up", "", "") }),
        ],
    );
    match outcome {
        OutcomeKind::ModuleError { error } => assert_eq!(error.kind, "ValueError"),
        other => panic!("unexpected outcome {other:?}"),
    }
}

#[test]
fn failing_tear_down_overrides_pass() {
    let test = method("m.py", "TestAdd", "test_add");
    let outcome = drive(
        &test,
        vec![
            (Action::LoadModule, Event::Done),
            (Action::FetchClass, Event::Done),
            (Action::Instantiate, Event::Done),
            (Action::InspectInstance, Event::Inspected { annotations: plain() }),
            (Action::FetchMethod, Event::Done),
            (Action::InspectTarget, Event::Inspected { annotations: plain() }),
            (Action::SetUp, Event::Done),
            (Action::CallTest, Event::Returned { time: 9 }),
            (Action::TearDown, Event::Raised { error: error("OSError", "gone", "", "") }),
        ],
    );
    assert!(matches!(outcome, OutcomeKind::ModuleError { .. }));
}

#[test]
fn method_passes_after_hooks() {
    let test = method("m.py", "TestAdd", "test_add");
    let outcome = drive(
        &test,
        vec![
            (Action::LoadModule, Event::Done),
            (Action::FetchClass, Event::Done),
            (Action::Instantiate, Event::Done),
            (Action::InspectInstance, Event::Inspected { annotations: plain() }),
            (Action::FetchMethod, Event::Done),
            (Action::InspectTarget, Event::Inspected { annotations: plain() }),
            (Action::SetUp, Event::Done),
            (Action::CallTest, Event::Returned { time: 9 }),
            (Action::TearDown, Event::Done),
        ],
    );
    assert!(matches!(outcome, OutcomeKind::Pass { time: 9 }));
}

#[test]
fn skipped_class_never_sets_up() {
    let test = method("m.py", "TestAdd", "test_add");
    let annotations = Annotations {
        skip: true,
        skip_why: Some("broken".to_string()),
        expecting_failure: true,
        marks: None,
    };
    let outcome = drive(
        &test,
        vec![
            (Action::LoadModule, Event::Done),
            (Action::FetchClass, Event::Done),
            (Action::Instantiate, Event::Done),
            (Action::InspectInstance, Event::Inspected { annotations }),
        ],
    );
    match outcome {
        OutcomeKind::Skip { reason } => assert_eq!(reason, "broken"),
        other => panic!("unexpected outcome {other:?}"),
    }
}

#[test]
fn skip_mark_wins_over_xfail() {
    let annotations = Annotations {
        skip: false,
        skip_why: None,
        expecting_failure: true,
        marks: Some(vec![Marker { name: "skip".to_string(), condition: None, reason: Some("later".to_string()) }]),
    };
    let outcome = drive(
        &function("a.py", "test_x"),
        vec![
            (Action::LoadModule, Event::Done),
            (Action::FetchFunction, Event::Done),
            (Action::InspectTarget, Event::Inspected { annotations }),
        ],
    );
    match outcome {
        OutcomeKind::Skip { reason } => assert_eq!(reason, "later"),
        other => panic!("unexpected outcome {other:?}"),
    }
}

#[test]
fn module_load_failure() {
    let outcome = drive(
        &function("bad.py", "test_x"),
        vec![(Action::LoadModule, Event::Raised { error: error("SyntaxError", "invalid syntax", "", "") })],
    );
    assert!(matches!(outcome, OutcomeKind::ModuleError { .. }));
}

#[test]
fn missing_function_is_not_found() {
    let outcome = drive(
        &function("a.py", "test_gone"),
        vec![(Action::LoadModule, Event::Done), (Action::FetchFunction, Event::Missing)],
    );
    assert!(matches!(outcome, OutcomeKind::TestNotFound));
    let report = JSONTestOutput::from_outcome(&TestOutcome { test: function("a.py", "test_gone"), outcome });
    assert_eq!(report.outcome, Outcome::NonTestFail);
    assert_eq!(report.time, None);
}

#[test]
fn state_rejects_foreign_event() {
    let (state, _) = RunState::begin(&function("a.py", "test_x"));
    assert!(!state.accepts(&Event::Returned { time: 1 }));
    assert!(state.accepts(&Event::Done));
}

#[test]
fn classify_inverts_when_expecting_failure() {
    assert!(matches!(classify(None, true, 3), OutcomeKind::ExpectedFailure { time: 3 }));
    assert!(matches!(classify(Some(error("TypeError", "", "", "")), true, 3), OutcomeKind::Pass { time: 3 }));
    assert!(matches!(classify(None, false, 3), OutcomeKind::Pass { time: 3 }));
}

#[test]
fn error_kind_predicates() {
    assert!(error("AssertionError", "", "", "").is_assertion_error());
    assert!(!error("AssertionErrors", "", "", "").is_assertion_error());
    assert!(error("SkipTest", "", "", "").is_skip_exception());
    assert!(!error("TestSkip", "", "", "").is_skip_exception());
}

#[test]
fn capture_isolated_per_test() {
    let first = run_function(
        &function("/a/test_one.py", "test_print"),
        plain(),
        Event::CallRaised { error: error("AssertionError", "", "one out\n", "one err\n"), time: 1 },
    );
    let second = run_function(
        &function("/b/test_two.py", "test_print"),
        plain(),
        Event::CallRaised { error: error("AssertionError", "", "two out\n", "two err\n"), time: 1 },
    );
    let summary = TestSummary::from_parts(vec![first, second], &vec![None, None], 2);
    assert_eq!(summary.failed, 2);
    let outputs: Vec<(String, Option<String>, Option<String>)> = summary
        .tests
        .iter()
        .map(|t| {
            let e = t.error().unwrap();
            (t.test.file().to_string(), e.stdout.clone(), e.stderr.clone())
        })
        .collect();
    assert_eq!(outputs[0], ("/a/test_one.py".to_string(), Some("one out\n".to_string()), Some("one err\n".to_string())));
    assert_eq!(outputs[1], ("/b/test_two.py".to_string(), Some("two out\n".to_string()), Some("two err\n".to_string())));
}

/// A method test of a class whose instance and method carry `annotations`, with
/// `setUp`/`tearDown` succeeding.
fn run_method(test: &Test, instance: Annotations, target: Annotations, call: Event) -> TestOutcome {
    let outcome = drive(
        test,
        vec![
            (Action::LoadModule, Event::Done),
            (Action::FetchClass, Event::Done),
            (Action::Instantiate, Event::Done),
            (Action::InspectInstance, Event::Inspected { annotations: instance }),
            (Action::FetchMethod, Event::Done),
            (Action::InspectTarget, Event::Inspected { annotations: target }),
            (Action::SetUp, Event::Done),
            (Action::CallTest, call),
            (Action::TearDown, Event::Done),
        ],
    );
    TestOutcome { test: test.clone(), outcome }
}

/// A function test whose annotations end the run before the call.
fn skip_function(test: &Test, annotations: Annotations) -> TestOutcome {
    let outcome = drive(
        test,
        vec![
            (Action::LoadModule, Event::Done),
            (Action::FetchFunction, Event::Done),
            (Action::InspectTarget, Event::Inspected { annotations }),
        ],
    );
    TestOutcome { test: test.clone(), outcome }
}

fn reports(outcomes: &[TestOutcome]) -> Vec<JSONTestOutput> {
    outcomes.iter().map(JSONTestOutput::from_outcome).collect()
}

#[test]
fn simple_function() {
    let results = reports(&[run_function(
        &function("./examples/simple_function.py", "test_add"),
        plain(),
        Event::Returned { time: 1 },
    )]);

    assert_eq!(results.len(), 1);
    assert!(results.iter().all(|x| x.outcome == Outcome::Pass));
}

#[test]
fn simple_method() {
    let file = "./examples/simple_method.py";
    let results = reports(&[
        run_method(&method(file, "TestMath", "test_add"), plain(), plain(), Event::Returned { time: 1 }),
        run_method(&method(file, "TestMath", "test_sub"), plain(), plain(), Event::Returned { time: 1 }),
        run_method(&method(file, "MathTests", "test_mul"), plain(), plain(), Event::Returned { time: 1 }),
    ]);

    assert_eq!(results.len(), 3);
    assert!(results.iter().all(|x| x.outcome == Outcome::Pass));
}

#[test]
fn test_times() {
    let file = "./examples/test_times.py";
    let outcomes: Vec<TestOutcome> = (0..5)
        .map(|i| run_function(&function(file, &format!("test_sleep_{i}")), plain(), Event::Returned { time: 100 }))
        .collect();
    let results = reports(&outcomes);

    assert_eq!(results.len(), 5);
    assert!(results.iter().all(|x| x.outcome == Outcome::Pass));

    let total_time: u64 = results.iter().flat_map(|result| result.time).sum();
    assert_eq!(total_time, 500);
}

#[test]
fn nested_package_import() {
    let results = reports(&[run_function(
        &function("./examples/package/test_times.py", "test_import"),
        plain(),
        Event::Returned { time: 1 },
    )]);

    assert_eq!(results.len(), 1);
    assert!(results.iter().all(|x| x.outcome == Outcome::Pass));
}

#[test]
fn skip_test() {
    let file = "./examples/skip_test.py";
    let native = Annotations {
        skip: true,
        skip_why: Some("native".to_string()),
        expecting_failure: false,
        marks: None,
    };
    let skipped_class = {
        let test = method(file, "TestSkipped", "test_any");
        let outcome = drive(
            &test,
            vec![
                (Action::LoadModule, Event::Done),
                (Action::FetchClass, Event::Done),
                (Action::Instantiate, Event::Done),
                (Action::InspectInstance, Event::Inspected { annotations: native.clone() }),
            ],
        );
        TestOutcome { test, outcome }
    };
    let results = reports(&[
        skip_function(&function(file, "test_unittest_skip"), native),
        skip_function(&function(file, "test_mark_skip"), marked("skip", None, Some("later"))),
        skip_function(&function(file, "test_skip_if"), marked("skipIf", Some(true), None)),
        skipped_class,
    ]);

    assert_eq!(results.len(), 4);
    assert!(results.iter().all(|x| x.outcome == Outcome::Skip));
}

#[test]
fn failing_test() {
    let file = "./examples/failing_test.py";
    let results = reports(&[
        run_function(
            &function(file, "test_regular_fail"),
            plain(),
            Event::CallRaised { error: error("AssertionError", "", "", ""), time: 1 },
        ),
        run_function(
            &function(file, "test_other_error"),
            plain(),
            Event::CallRaised { error: error("TypeError", "unsupported operand", "", ""), time: 1 },
        ),
    ]);

    assert_eq!(results.len(), 2);
    assert!(results.iter().all(|x| x.outcome == Outcome::Fail));

    let (regular_fail, other_error) = if results[0].test_identifier == "test_regular_fail" {
        (&results[0], &results[1])
    } else {
        (&results[1], &results[0])
    };

    let error = regular_fail.error.as_ref().unwrap();
    assert_eq!(error.kind, "AssertionError");

    let error = other_error.error.as_ref().unwrap();
    assert_eq!(error.kind, "TypeError");
}

#[test]
fn invalid_method() {
    let message = "TestAdd.test_add() takes 0 positional arguments but 1 was given";
    let results = reports(&[run_method(
        &method("./examples/invalid_method.py", "TestAdd", "test_add"),
        plain(),
        plain(),
        Event::CallRaised { error: error("TypeError", message, "", ""), time: 1 },
    )]);

    assert_eq!(results.len(), 1);
    assert!(results.iter().all(|x| x.outcome == Outcome::Fail));

    let error = results.first().unwrap().error.as_ref().unwrap();
    assert_eq!(error.kind, "TypeError");
    assert_eq!(error.message, "TestAdd.test_add() takes 0 positional arguments but 1 was given");
}

#[test]
fn import_decimal_module() {
    let file = "./examples/import_decimal.py";
    let results = reports(&[
        run_function(&function(file, "test_decimal"), plain(), Event::Returned { time: 1 }),
        run_function(&function(file, "test_decimal_again"), plain(), Event::Returned { time: 1 }),
    ]);

    assert_eq!(results.len(), 2);
    assert!(results.iter().all(|x| x.outcome == Outcome::Pass));
}
