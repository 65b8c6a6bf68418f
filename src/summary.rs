//! Scheduling many tests and summing up their outcomes.
//!
//! Tests run concurrently; the only state they share is the fail-fast flag. Once a
//! failing outcome has set it (with fail-fast enabled), tests that have not started yet
//! are not run but reported as cancelled skips; tests already running finish.

use vstd::prelude::*;
use vstd::string::*;
use crate::coverage::{Lines, merge_seq};
use crate::discovery::Test;
use crate::run::{OutcomeKind, TestOutcome, is_failing};

verus! {

/// Whether a test that is about to start may run.
pub open spec fn spec_may_start(fail_fast: bool, tripped: bool) -> bool {
    !(fail_fast && tripped)
}

/// Whether an outcome sets the fail-fast flag.
pub open spec fn spec_trips(fail_fast: bool, outcome: OutcomeKind) -> bool {
    fail_fast && is_failing(outcome)
}

/// Whether a test that is about to start may run, given the fail-fast setting and flag.
pub fn may_start(fail_fast: bool, tripped: bool) -> (r: bool)
    ensures
        r == spec_may_start(fail_fast, tripped),
{
    !(fail_fast && tripped)
}

/// Whether the outcome of a finished test sets the fail-fast flag.
pub fn trips(fail_fast: bool, outcome: &OutcomeKind) -> (r: bool)
    ensures
        r == spec_trips(fail_fast, *outcome),
{
    fail_fast && !matches!(outcome, OutcomeKind::Pass { .. } | OutcomeKind::Skip { .. })
}

/// The reason given for a test that fail-fast kept from starting.
pub open spec fn cancel_reason() -> Seq<char> {
    "cancelled: an earlier test failed"@
}

/// The outcome of a test that fail-fast kept from starting: a skip.
pub fn cancelled(test: Test) -> (r: TestOutcome)
    ensures
        r.test == test,
        r.outcome is Skip,
        match r.outcome {
            OutcomeKind::Skip { reason } => reason@ == cancel_reason(),
            _ => false,
        },
{
    TestOutcome {
        test,
        outcome: OutcomeKind::Skip { reason: String::from_str("cancelled: an earlier test failed") },
    }
}

/// A model of a fail-fast run, for stating what the per-test steps add up to: tests are
/// taken one after another, each starts when `may_start` allows it and sets the flag when
/// `trips` says so. No executable function runs this model; a host that runs tests
/// concurrently makes the same two calls per test, but in an order this model does not
/// fix.
///
/// The fail-fast flag after the tests of `outcomes` have run one after another, from a
/// clear flag: set once a test that was started has a failing outcome.
pub open spec fn tripped_after(fail_fast: bool, outcomes: Seq<OutcomeKind>) -> bool
    decreases outcomes.len(),
{
    if outcomes.len() == 0 {
        false
    } else {
        let before = tripped_after(fail_fast, outcomes.drop_last());
        before || (spec_may_start(fail_fast, before) && spec_trips(fail_fast, outcomes.last()))
    }
}

/// Which of the tests are started, when tests run one after another and test `i`, if
/// started, would have the outcome `outcomes[i]`; every other test is cancelled.
pub open spec fn started(fail_fast: bool, outcomes: Seq<OutcomeKind>) -> Seq<bool> {
    Seq::new(outcomes.len(), |i: int| spec_may_start(fail_fast, tripped_after(fail_fast, outcomes.subrange(0, i))))
}

/// The outcomes that are reported: the outcome of each started test, a cancellation for
/// each other test (`None`).
pub open spec fn reported(fail_fast: bool, outcomes: Seq<OutcomeKind>) -> Seq<Option<OutcomeKind>> {
    Seq::new(
        outcomes.len(),
        |i: int| if started(fail_fast, outcomes)[i] {
            Some(outcomes[i])
        } else {
            None
        },
    )
}

/// In the sequential model of a run: without fail-fast, every test runs and reports its
/// own outcome, however many fail, so there are exactly as many outcomes as tests.
pub proof fn lemma_no_fail_fast_runs_all(outcomes: Seq<OutcomeKind>)
    ensures
        reported(false, outcomes).len() == outcomes.len(),
        forall|i: int| 0 <= i < outcomes.len() ==> #[trigger] reported(false, outcomes)[i] == Some(outcomes[i]),
{
}

proof fn lemma_tripped_stays(fail_fast: bool, outcomes: Seq<OutcomeKind>, i: int, j: int)
    requires
        0 <= i <= j <= outcomes.len(),
        tripped_after(fail_fast, outcomes.subrange(0, i)),
    ensures
        tripped_after(fail_fast, outcomes.subrange(0, j)),
    decreases j - i,
{
    if i < j {
        lemma_tripped_stays(fail_fast, outcomes, i, j - 1);
        assert(outcomes.subrange(0, j).drop_last() =~= outcomes.subrange(0, j - 1));
    }
}

/// In the sequential model of a run: with fail-fast, every test is either started or
/// cancelled, so the reported outcomes number the tests; and once a started test has
/// failed, no later test starts.
pub proof fn lemma_fail_fast_cancels_rest(outcomes: Seq<OutcomeKind>, i: int, j: int)
    requires
        0 <= i < j < outcomes.len(),
        started(true, outcomes)[i],
        is_failing(outcomes[i]),
    ensures
        reported(true, outcomes).len() == outcomes.len(),
        !started(true, outcomes)[j],
        reported(true, outcomes)[j] is None,
{
    assert(outcomes.subrange(0, i + 1).drop_last() =~= outcomes.subrange(0, i));
    assert(outcomes.subrange(0, i + 1).last() == outcomes[i]);
    assert(tripped_after(true, outcomes.subrange(0, i + 1)));
    lemma_tripped_stays(true, outcomes, i + 1, j);
}

/// How many of `s` satisfy the kind test `k`: 0 pass, 1 skip, 2 anything else.
pub open spec fn count_kind(s: Seq<TestOutcome>, k: int) -> nat
    decreases s.len(),
{
    if s.len() == 0 {
        0
    } else {
        count_kind(s.drop_last(), k) + if kind_class(s.last().outcome) == k {
            1nat
        } else {
            0nat
        }
    }
}

/// 0 for a pass, 1 for a skip, 2 for every failing outcome.
pub open spec fn kind_class(o: OutcomeKind) -> int {
    match o {
        OutcomeKind::Pass { .. } => 0,
        OutcomeKind::Skip { .. } => 1,
        _ => 2,
    }
}

proof fn lemma_counts_sum(s: Seq<TestOutcome>)
    ensures
        count_kind(s, 0) + count_kind(s, 1) + count_kind(s, 2) == s.len(),
    decreases s.len(),
{
    if s.len() > 0 {
        lemma_counts_sum(s.drop_last());
    }
}

/// How a summary line should read at a glance
#[derive(Debug, Clone, Copy, PartialEq, Eq)]
pub enum Tone {
    /// No test was run
    Neutral,
    /// Tests ran and none failed
    Good,
    /// A test failed
    Bad,
}

/// Summary of all tests that were run
pub struct TestSummary {
    /// How long the run took, in nanoseconds
    pub duration: u64,
    pub passed: usize,
    pub skipped: usize,
    pub failed: usize,
    pub tests: Vec<TestOutcome>,
    pub executed_lines: Lines,
}

impl TestSummary {
    /// The counters are those of the outcomes.
    pub open spec fn wf(&self) -> bool {
        &&& self.passed == count_kind(self.tests@, 0)
        &&& self.skipped == count_kind(self.tests@, 1)
        &&& self.failed == count_kind(self.tests@, 2)
        &&& self.passed + self.skipped + self.failed == self.tests@.len()
        &&& self.executed_lines.wf()
    }

    /// Sum up the outcomes of a run, in the order given, and merge the executed lines
    /// that each test recorded.
    pub fn from_parts(tests: Vec<TestOutcome>, coverage: &Vec<Option<Lines>>, duration: u64) -> (r: Self)
        requires
            forall|i: int| 0 <= i < coverage@.len() && (#[trigger] coverage@[i]) is Some ==> coverage@[i].unwrap().wf(),
        ensures
            r.wf(),
            r.tests@ == tests@,
            r.duration == duration,
            r.executed_lines@ == merge_seq(Map::empty(), coverage@),
    {
        let mut passed: usize = 0;
        let mut skipped: usize = 0;
        let mut failed: usize = 0;
        let mut i: usize = 0;
        while i < tests.len()
            invariant
                i <= tests.len(),
                passed == count_kind(tests@.subrange(0, i as int), 0),
                skipped == count_kind(tests@.subrange(0, i as int), 1),
                failed == count_kind(tests@.subrange(0, i as int), 2),
                passed + skipped + failed == i,
            decreases tests.len() - i,
        {
            proof {
                assert(tests@.subrange(0, i + 1).drop_last() =~= tests@.subrange(0, i as int));
                lemma_counts_sum(tests@.subrange(0, i as int));
            }
            match &tests[i].outcome {
                OutcomeKind::Pass { .. } => passed = passed + 1,
                OutcomeKind::Skip { .. } => skipped = skipped + 1,
                _ => failed = failed + 1,
            }
            i = i + 1;
        }
        proof {
            assert(tests@.subrange(0, tests.len() as int) =~= tests@);
        }
        let mut executed_lines = Lines::new();
        executed_lines.extend(coverage);
        TestSummary { duration, passed, skipped, failed, tests, executed_lines }
    }

    /// How many tests were run: those that passed or failed
    pub fn run(&self) -> (r: usize)
        requires
            self.wf(),
        ensures
            r == self.passed + self.failed,
    {
        self.tests.len() - self.skipped
    }

    /// The tone of the summary line: neutral when no test ran, good when none failed
    pub fn tone(&self) -> (r: Tone)
        requires
            self.wf(),
        ensures
            r == if self.passed + self.failed == 0 {
                Tone::Neutral
            } else if self.failed == 0 {
                Tone::Good
            } else {
                Tone::Bad
            },
    {
        if self.run() == 0 {
            Tone::Neutral
        } else if self.failed == 0 {
            Tone::Good
        } else {
            Tone::Bad
        }
    }

    /// A run succeeds when no test failed and at least one passed
    pub fn is_successful(&self) -> (r: bool)
        ensures
            r == (self.failed == 0 && self.passed > 0),
    {
        self.failed == 0 && self.passed > 0
    }
}

} // verus!
