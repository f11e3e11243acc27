//! Decisions of the running stage. Only a compiled task is run. Its tests
//! start out pending; each is marked as executing when its run starts, and
//! replaced by the test that its run's outcome gives when that run ends. The
//! runs end in any order; the results do not depend on it.
use vstd::prelude::*;

use crate::domain::{Artifact, Task, TaskState, Test, TestData, TestResources, TestState};
use vstd::set_lib::set_int_range;
use crate::engine::traits::executor::{RunError, RunResult};

verus! {

/// The resources that a run used.
pub open spec fn resources_of(result: RunResult) -> TestResources {
    TestResources {
        execution_time_ms: result.execution_time_ms,
        peak_memory_usage_bytes: result.peak_memory_usage_bytes,
    }
}

/// The resources that a run used.
pub fn resources(result: &RunResult) -> (r: TestResources)
    ensures
        r == resources_of(*result),
{
    TestResources {
        execution_time_ms: result.execution_time_ms,
        peak_memory_usage_bytes: result.peak_memory_usage_bytes,
    }
}

/// A run's output is what the test data expects: the same stdout, stderr and
/// exit status.
pub open spec fn output_matches(test_data: TestData, result: RunResult) -> bool {
    &&& result.stdout@ == test_data.stdout@
    &&& result.stderr@ == test_data.stderr@
    &&& result.status == test_data.status
}

/// `test` is what a test with `test_data` becomes when its run ends with
/// `result`.
pub open spec fn test_after_run(test_data: TestData, result: Result<RunResult, RunError>, test: Test) -> bool {
    match result {
        Ok(res) => {
            &&& test.current_stdout == res.stdout
            &&& test.current_stderr == res.stderr
            &&& if output_matches(test_data, res) {
                test.state == TestState::Correct { resources: resources_of(res), status: res.status }
            } else {
                test.state == TestState::Wrong {
                    expected_stdout: test_data.stdout,
                    expected_stderr: test_data.stderr,
                    expected_status: test_data.status,
                    actual_status: res.status,
                    resources: resources_of(res),
                }
            }
        },
        Err(RunError::LimitsExceeded { result: res, limit_type }) => {
            &&& test.current_stdout == res.stdout
            &&& test.current_stderr == res.stderr
            &&& test.state == TestState::LimitsExceeded { limit_type, resources: resources_of(res) }
        },
        Err(RunError::Internal { msg }) => {
            &&& test.current_stdout@ == Seq::<char>::empty()
            &&& test.current_stderr@ == Seq::<char>::empty()
            &&& test.state == TestState::InternalError { message: msg }
        },
    }
}

/// The test that a test with `test_data` becomes when its run ends with
/// `result`.
pub fn test_from_run_result(test_data: &TestData, result: Result<RunResult, RunError>) -> (r: Test)
    ensures
        test_after_run(*test_data, result, r),
{
    match result {
        Ok(res) => {
            let matches = res.stdout == test_data.stdout && res.stderr == test_data.stderr
                && res.status == test_data.status;
            let used = resources(&res);
            if matches {
                Test {
                    current_stdout: res.stdout,
                    current_stderr: res.stderr,
                    state: TestState::Correct { resources: used, status: res.status },
                }
            } else {
                Test {
                    current_stdout: res.stdout,
                    current_stderr: res.stderr,
                    state: TestState::Wrong {
                        expected_stdout: test_data.stdout.clone(),
                        expected_stderr: test_data.stderr.clone(),
                        expected_status: test_data.status,
                        actual_status: res.status,
                        resources: used,
                    },
                }
            }
        },
        Err(RunError::LimitsExceeded { result: res, limit_type }) => {
            let used = resources(&res);
            Test {
                current_stdout: res.stdout,
                current_stderr: res.stderr,
                state: TestState::LimitsExceeded { limit_type, resources: used },
            }
        },
        Err(RunError::Internal { msg }) => Test {
            current_stdout: String::new(),
            current_stderr: String::new(),
            state: TestState::InternalError { message: msg },
        },
    }
}

/// A finished run is judged on the fields themselves: the test is `Correct`
/// exactly when stdout, stderr and exit status all equal the expected ones,
/// and then carries the run's status; otherwise it is `Wrong` with the
/// expected stdout, stderr and status beside the status the program actually
/// exited with. Either way the test shows the run's output and resources.
pub proof fn lemma_run_judged_on_all_fields(test_data: TestData, result: RunResult, test: Test)
    requires
        test_after_run(test_data, Ok(result), test),
    ensures
        test.current_stdout == result.stdout,
        test.current_stderr == result.stderr,
        (test.state is Correct) <==> (result.stdout@ == test_data.stdout@ && result.stderr@
            == test_data.stderr@ && result.status == test_data.status),
        result.status != test_data.status ==> test.state == (TestState::Wrong {
            expected_stdout: test_data.stdout,
            expected_stderr: test_data.stderr,
            expected_status: test_data.status,
            actual_status: result.status,
            resources: TestResources {
                execution_time_ms: result.execution_time_ms,
                peak_memory_usage_bytes: result.peak_memory_usage_bytes,
            },
        }),
        (test.state is Correct) ==> test.state == (TestState::Correct {
            resources: TestResources {
                execution_time_ms: result.execution_time_ms,
                peak_memory_usage_bytes: result.peak_memory_usage_bytes,
            },
            status: test_data.status,
        }),
        !(test.state is Correct) ==> test.state == (TestState::Wrong {
            expected_stdout: test_data.stdout,
            expected_stderr: test_data.stderr,
            expected_status: test_data.status,
            actual_status: result.status,
            resources: TestResources {
                execution_time_ms: result.execution_time_ms,
                peak_memory_usage_bytes: result.peak_memory_usage_bytes,
            },
        }),
{
}

/// The artifact to run, when the task is compiled; `None` for a task in any
/// other state, which the running stage skips.
pub fn compiled_artifact(task: &Task) -> (r: Option<Artifact>)
    ensures
        match task.state {
            TaskState::Compiled(artifact) => r == Some(artifact),
            _ => r is None,
        },
{
    match &task.state {
        TaskState::Compiled(artifact) => Some(*artifact),
        _ => None,
    }
}

/// `test` has not run yet and shows no output.
pub open spec fn is_pending(test: Test) -> bool {
    &&& test.current_stdout@ == Seq::<char>::empty()
    &&& test.current_stderr@ == Seq::<char>::empty()
    &&& test.state is Pending
}

/// One pending test for each of the task's test data.
pub fn pending_tests(task: &Task) -> (r: Vec<Test>)
    ensures
        r@.len() == task.test_data@.len(),
        forall|i: int| 0 <= i < r@.len() ==> is_pending(#[trigger] r@[i]),
{
    let n = task.test_data.len();
    let mut tests: Vec<Test> = Vec::new();
    let mut i: usize = 0;
    while i < n
        invariant
            n == task.test_data@.len(),
            i <= n,
            tests@.len() == i,
            forall|j: int| 0 <= j < i ==> is_pending(#[trigger] tests@[j]),
        decreases n - i,
    {
        tests.push(
            Test {
                current_stdout: String::new(),
                current_stderr: String::new(),
                state: TestState::Pending,
            },
        );
        i = i + 1;
    }
    tests
}

/// `test` is `before` with its state set to `Executing`.
pub open spec fn started(before: Test, test: Test) -> bool {
    &&& test.current_stdout == before.current_stdout
    &&& test.current_stderr == before.current_stderr
    &&& test.state is Executing
}

/// Marks the test at `idx` as executing; the other tests stay as they are.
pub fn mark_executing(tests: &mut Vec<Test>, idx: usize)
    requires
        idx < old(tests)@.len(),
    ensures
        final(tests)@.len() == old(tests)@.len(),
        started(old(tests)@[idx as int], final(tests)@[idx as int]),
        forall|j: int| 0 <= j < old(tests)@.len() && j != idx ==> final(tests)@[j] == old(tests)@[j],
{
    let before = tests[idx].clone();
    let test = Test {
        current_stdout: before.current_stdout,
        current_stderr: before.current_stderr,
        state: TestState::Executing,
    };
    tests.set(idx, test);
}

/// Replaces the test at `idx` by the one that its run's outcome `result`
/// gives; the other tests stay as they are.
pub fn record_result(
    tests: &mut Vec<Test>,
    idx: usize,
    test_data: &TestData,
    result: Result<RunResult, RunError>,
)
    requires
        idx < old(tests)@.len(),
    ensures
        final(tests)@.len() == old(tests)@.len(),
        test_after_run(*test_data, result, final(tests)@[idx as int]),
        forall|j: int| 0 <= j < old(tests)@.len() && j != idx ==> final(tests)@[j] == old(tests)@[j],
{
    let test = test_from_run_result(test_data, result);
    tests.set(idx, test);
}

/// `test` is running and shows no output yet.
pub open spec fn is_executing(test: Test) -> bool {
    &&& test.current_stdout@ == Seq::<char>::empty()
    &&& test.current_stderr@ == Seq::<char>::empty()
    &&& test.state is Executing
}

/// Where each test stands when the first `started` tests have been started
/// and the runs in `outcomes` (by test index) have ended: a test whose run
/// ended is what that run gave; a started test is executing; the others are
/// pending.
pub open spec fn progress(
    test_data: Seq<TestData>,
    started: int,
    outcomes: Map<int, Result<RunResult, RunError>>,
    tests: Seq<Test>,
) -> bool {
    &&& tests.len() == test_data.len()
    &&& 0 <= started <= test_data.len()
    &&& forall|i: int| #[trigger] outcomes.dom().contains(i) ==> 0 <= i < started
    &&& forall|i: int|
        0 <= i < tests.len() ==> if outcomes.dom().contains(i) {
            test_after_run(test_data[i], outcomes[i], #[trigger] tests[i])
        } else if i < started {
            is_executing(tests[i])
        } else {
            is_pending(tests[i])
        }
}

/// `report` is the task `task` reported while its tests are `tests`.
pub open spec fn reports_executing(task: Task, tests: Seq<Test>, report: Task) -> bool {
    &&& report.same_task(task)
    &&& report.updated_at.well_formed()
    &&& report.state matches TaskState::Executing { tests: t } && t@ == tests
}

/// The running of one compiled task's tests, step by step. Every step gives
/// the task to report: once when the run begins, once as each test starts,
/// once as each test's run ends, and once when all are done.
pub struct TestRun {
    task: Task,
    tests: Vec<Test>,
    started: usize,
    done: Vec<bool>,
    recorded: usize,
    outcomes: Ghost<Map<int, Result<RunResult, RunError>>>,
    reports: Ghost<nat>,
}

impl TestRun {
    /// The task whose tests run.
    pub closed spec fn base(self) -> Task {
        self.task
    }

    /// The tests as they stand.
    pub closed spec fn tests(self) -> Seq<Test> {
        self.tests@
    }

    /// How many tests have been started, in the order of the test data.
    pub closed spec fn started(self) -> int {
        self.started as int
    }

    /// The outcomes of the runs that have ended, by test index.
    pub closed spec fn outcomes(self) -> Map<int, Result<RunResult, RunError>> {
        self.outcomes@
    }

    /// How many reports the steps so far have given.
    pub closed spec fn reports(self) -> nat {
        self.reports@
    }

    /// The number of tests.
    pub open spec fn size(self) -> int {
        self.base().test_data@.len() as int
    }

    /// The run's parts agree with one another.
    pub closed spec fn well_formed(self) -> bool {
        &&& progress(self.task.test_data@, self.started as int, self.outcomes@, self.tests@)
        &&& self.done@.len() == self.tests@.len()
        &&& forall|i: int| 0 <= i < self.done@.len() ==> (#[trigger] self.done@[i]
            <==> self.outcomes@.dom().contains(i))
        &&& self.outcomes@.dom().finite()
        &&& self.outcomes@.dom().len() == self.recorded
        &&& self.reports@ == 1 + self.started + self.recorded
    }

    /// Where the tests of a well-formed run stand: each is pending, executing
    /// or what its own run gave, as `progress` says.
    pub proof fn lemma_progress(self)
        requires
            self.well_formed(),
        ensures
            progress(self.base().test_data@, self.started(), self.outcomes(), self.tests()),
            self.tests().len() == self.size(),
    {
    }

    /// The task whose tests run.
    pub fn task(&self) -> (r: &Task)
        ensures
            *r == self.base(),
    {
        &self.task
    }

    /// How many tests have been started.
    pub fn started_count(&self) -> (r: usize)
        ensures
            r == self.started(),
    {
        self.started
    }

    /// Whether the run of the test at `idx` has ended.
    pub fn is_recorded(&self, idx: usize) -> (r: bool)
        requires
            self.well_formed(),
            idx < self.size(),
        ensures
            r == self.outcomes().dom().contains(idx as int),
    {
        self.done[idx]
    }

    /// Whether the runs of all tests have ended.
    pub fn all_recorded(&self) -> (r: bool)
        requires
            self.well_formed(),
        ensures
            r == (forall|i: int| 0 <= i < self.size() ==> #[trigger] self.outcomes().dom().contains(i)),
    {
        let n = self.tests.len();
        proof {
            let dom = self.outcomes@.dom();
            let range = set_int_range(0, n as int);
            vstd::set_lib::lemma_int_range(0, n as int);
            assert forall|i: int| #[trigger] dom.contains(i) implies range.contains(i) by {}
            assert(dom.subset_of(range));
            if self.recorded == n {
                vstd::set_lib::lemma_subset_equality(dom, range);
                assert forall|i: int| 0 <= i < self.size() implies #[trigger] self.outcomes().dom().contains(i) by {
                    assert(range.contains(i));
                }
            }
            if forall|i: int| 0 <= i < self.size() ==> #[trigger] self.outcomes().dom().contains(i) {
                assert forall|i: int| #[trigger] range.contains(i) implies dom.contains(i) by {
                    assert(self.outcomes().dom().contains(i));
                }
                assert(dom =~= range);
            }
        }
        self.recorded == n
    }

    /// The run of a task's tests begins: for a compiled task, its artifact,
    /// the run with every test pending, and the task reported in `Executing`
    /// with those tests; `None` for a task in any other state, which is not
    /// run.
    pub fn begin(task: Task) -> (r: Option<(Artifact, TestRun, Task)>)
        ensures
            match task.state {
                TaskState::Compiled(a) => r matches Some((artifact, run, report)) && {
                    &&& artifact == a
                    &&& run.well_formed()
                    &&& run.base() == task
                    &&& run.tests().len() == run.size()
                    &&& forall|i: int| 0 <= i < run.size() ==> is_pending(#[trigger] run.tests()[i])
                    &&& run.started() == 0
                    &&& run.outcomes().dom() == Set::<int>::empty()
                    &&& run.reports() == 1
                    &&& reports_executing(task, run.tests(), report)
                },
                _ => r is None,
            },
    {
        let artifact = match compiled_artifact(&task) {
            Some(a) => a,
            None => {
                return None;
            },
        };
        let tests = pending_tests(&task);
        let n = tests.len();
        let mut done: Vec<bool> = Vec::new();
        let mut i: usize = 0;
        while i < n
            invariant
                i <= n,
                done@.len() == i,
                forall|j: int| 0 <= j < i ==> !#[trigger] done@[j],
            decreases n - i,
        {
            done.push(false);
            i = i + 1;
        }
        let shown = tests.clone();
        assert(shown@ =~= tests@);
        let report = task.change_state(TaskState::Executing { tests: shown });
        let run = TestRun {
            task,
            tests,
            started: 0,
            done,
            recorded: 0,
            outcomes: Ghost(Map::empty()),
            reports: Ghost(1),
        };
        proof {
            assert(run.outcomes@.dom() =~= Set::<int>::empty());
        }
        Some((artifact, run, report))
    }

    /// The next test, in the order of the test data, starts; the task is
    /// reported with its tests.
    pub fn start_next(&mut self) -> (report: Task)
        requires
            old(self).well_formed(),
            old(self).started() < old(self).size(),
        ensures
            final(self).well_formed(),
            final(self).base() == old(self).base(),
            final(self).started() == old(self).started() + 1,
            final(self).outcomes() == old(self).outcomes(),
            final(self).reports() == old(self).reports() + 1,
            final(self).tests().len() == old(self).tests().len(),
            started(old(self).tests()[old(self).started()], final(self).tests()[old(self).started()]),
            forall|j: int|
                0 <= j < old(self).tests().len() && j != old(self).started() ==> final(self).tests()[j]
                    == old(self).tests()[j],
            reports_executing(final(self).base(), final(self).tests(), report),
    {
        let idx = self.started;
        let n = self.tests.len();
        assert(idx < n);
        mark_executing(&mut self.tests, idx);
        self.started = idx + 1;
        proof {
            self.reports@ = self.reports@ + 1;
            assert(!self.outcomes@.dom().contains(idx as int));
            assert forall|i: int| #[trigger] self.outcomes@.dom().contains(i) implies 0 <= i
                < self.started by {}
            assert(is_executing(self.tests@[idx as int]));
        }
        let shown = self.tests.clone();
        assert(shown@ =~= self.tests@);
        self.task.change_state(TaskState::Executing { tests: shown })
    }

    /// The run of the started test at `idx` ended with `result`: the test
    /// becomes what that outcome gives, and the task is reported with its
    /// tests.
    pub fn record(&mut self, idx: usize, result: Result<RunResult, RunError>) -> (report: Task)
        requires
            old(self).well_formed(),
            idx < old(self).started(),
            !old(self).outcomes().dom().contains(idx as int),
        ensures
            final(self).well_formed(),
            final(self).base() == old(self).base(),
            final(self).started() == old(self).started(),
            final(self).outcomes() == old(self).outcomes().insert(idx as int, result),
            final(self).reports() == old(self).reports() + 1,
            final(self).tests().len() == old(self).tests().len(),
            test_after_run(old(self).base().test_data@[idx as int], result, final(self).tests()[idx as int]),
            forall|j: int|
                0 <= j < old(self).tests().len() && j != idx ==> final(self).tests()[j] == old(
                    self,
                ).tests()[j],
            reports_executing(final(self).base(), final(self).tests(), report),
    {
        let ghost outcome = result;
        let ghost old_dom = self.outcomes@.dom();
        let n = self.tests.len();
        proof {
            let range = set_int_range(0, n as int);
            vstd::set_lib::lemma_int_range(0, n as int);
            assert forall|i: int| #[trigger] old_dom.insert(idx as int).contains(i) implies range.contains(i) by {}
            vstd::set_lib::lemma_len_subset(old_dom.insert(idx as int), range);
        }
        record_result(&mut self.tests, idx, &self.task.test_data[idx], result);
        self.done.set(idx, true);
        self.recorded = self.recorded + 1;
        proof {
            self.outcomes@ = self.outcomes@.insert(idx as int, outcome);
            self.reports@ = self.reports@ + 1;
            assert(self.outcomes@.dom() =~= old_dom.insert(idx as int));
            assert forall|i: int| 0 <= i < self.done@.len() implies (#[trigger] self.done@[i]
                <==> self.outcomes@.dom().contains(i)) by {}
        }
        let shown = self.tests.clone();
        assert(shown@ =~= self.tests@);
        self.task.change_state(TaskState::Executing { tests: shown })
    }

    /// All tests ran: the task is reported `Done`, each test as its own run's
    /// outcome gave it, by test index.
    pub fn finish(self) -> (report: Task)
        requires
            self.well_formed(),
            self.started() == self.size(),
            forall|i: int| 0 <= i < self.size() ==> #[trigger] self.outcomes().dom().contains(i),
        ensures
            self.reports() + 1 == 2 * self.size() + 2,
            report.same_task(self.base()),
            report.updated_at.well_formed(),
            report.state matches TaskState::Done { results } && results@.len() == self.size() && forall|
                i: int,
            |
                0 <= i < self.size() ==> test_after_run(
                    self.base().test_data@[i],
                    self.outcomes()[i],
                    #[trigger] results@[i],
                ),
    {
        proof {
            let n = self.tests@.len() as int;
            let dom = self.outcomes@.dom();
            vstd::set_lib::lemma_int_range(0, n);
            assert forall|i: int| #[trigger] dom.contains(i) <==> set_int_range(0, n).contains(i) by {
                if 0 <= i < n {
                    assert(self.outcomes().dom().contains(i));
                }
            }
            assert(dom =~= set_int_range(0, n));
        }
        let task = self.task;
        let tests = self.tests;
        task.change_state(TaskState::Done { results: tests })
    }
}

/// The tests after the outcomes `(index, test)` were recorded one after the
/// other, in the order given.
pub open spec fn apply_outcomes(tests: Seq<Test>, outcomes: Seq<(int, Test)>) -> Seq<Test>
    decreases outcomes.len(),
{
    if outcomes.len() == 0 {
        tests
    } else {
        let last = outcomes.last();
        apply_outcomes(tests, outcomes.drop_last()).update(last.0, last.1)
    }
}

/// Each of the `n` tests reports its outcome exactly once in `outcomes`.
pub open spec fn each_once(outcomes: Seq<(int, Test)>, n: int) -> bool {
    &&& forall|k: int| 0 <= k < outcomes.len() ==> 0 <= #[trigger] outcomes[k].0 < n
    &&& forall|k: int, l: int|
        0 <= k < outcomes.len() && 0 <= l < outcomes.len() && k != l ==> #[trigger] outcomes[k].0
            != #[trigger] outcomes[l].0
    &&& forall|i: int| 0 <= i < n ==> #[trigger] reported(outcomes, i)
}

/// Test `i` reported its outcome in `outcomes`.
pub open spec fn reported(outcomes: Seq<(int, Test)>, i: int) -> bool {
    exists|k: int| 0 <= k < outcomes.len() && #[trigger] outcomes[k].0 == i
}

proof fn lemma_apply_prefix(tests: Seq<Test>, outcomes: Seq<(int, Test)>, i: int)
    requires
        0 <= i < tests.len(),
        forall|k: int| 0 <= k < outcomes.len() ==> 0 <= #[trigger] outcomes[k].0 < tests.len(),
        forall|k: int, l: int|
            0 <= k < outcomes.len() && 0 <= l < outcomes.len() && k != l ==> #[trigger] outcomes[k].0
                != #[trigger] outcomes[l].0,
    ensures
        apply_outcomes(tests, outcomes).len() == tests.len(),
        (forall|k: int| 0 <= k < outcomes.len() ==> outcomes[k].0 != i) ==> apply_outcomes(tests, outcomes)[i] == tests[i],
        forall|k: int| 0 <= k < outcomes.len() && outcomes[k].0 == i ==> apply_outcomes(tests, outcomes)[i] == outcomes[k].1,
    decreases outcomes.len(),
{
    if outcomes.len() > 0 {
        let prefix = outcomes.drop_last();
        assert forall|k: int| 0 <= k < prefix.len() implies 0 <= #[trigger] prefix[k].0 < tests.len() by {
            assert(prefix[k] == outcomes[k]);
        }
        assert forall|k: int, l: int|
            0 <= k < prefix.len() && 0 <= l < prefix.len() && k != l implies #[trigger] prefix[k].0
                != #[trigger] prefix[l].0 by {
            assert(prefix[k] == outcomes[k]);
            assert(prefix[l] == outcomes[l]);
        }
        lemma_apply_prefix(tests, prefix, i);
        let last_k = outcomes.len() - 1;
        assert(outcomes.last() == outcomes[last_k]);
        assert forall|k: int| 0 <= k < outcomes.len() && outcomes[k].0 == i implies apply_outcomes(
            tests,
            outcomes,
        )[i] == outcomes[k].1 by {
            if k < last_k {
                assert(prefix[k] == outcomes[k]);
                assert(outcomes[k].0 != outcomes[last_k].0);
            }
        }
        if forall|k: int| 0 <= k < outcomes.len() ==> outcomes[k].0 != i {
            assert forall|k: int| 0 <= k < prefix.len() implies prefix[k].0 != i by {
                assert(prefix[k] == outcomes[k]);
            }
            assert(outcomes[last_k].0 != i);
        }
    }
}

/// Whatever order the runs end in, once each test has reported its outcome
/// exactly once, every test is the one that its own outcome gave.
pub proof fn lemma_results_independent_of_order(tests: Seq<Test>, outcomes: Seq<(int, Test)>)
    requires
        each_once(outcomes, tests.len() as int),
    ensures
        apply_outcomes(tests, outcomes).len() == tests.len(),
        forall|k: int| 0 <= k < outcomes.len() ==> #[trigger] apply_outcomes(tests, outcomes)[outcomes[k].0] == outcomes[k].1,
{
    if tests.len() == 0 {
        if outcomes.len() > 0 {
            let k: int = 0;
            assert(0 <= outcomes[k].0 < tests.len());
        }
    } else {
        lemma_apply_prefix(tests, outcomes, 0);
    }
    assert forall|k: int| 0 <= k < outcomes.len() implies #[trigger] apply_outcomes(tests, outcomes)[outcomes[k].0] == outcomes[k].1 by {
        lemma_apply_prefix(tests, outcomes, outcomes[k].0);
    }
}

/// Two orders of arrival of the same outcomes, each test reporting exactly
/// once, leave the same tests.
pub proof fn lemma_arrival_order_irrelevant(
    tests: Seq<Test>,
    first: Seq<(int, Test)>,
    second: Seq<(int, Test)>,
)
    requires
        each_once(first, tests.len() as int),
        each_once(second, tests.len() as int),
        forall|k: int| 0 <= k < second.len() ==> first.contains(#[trigger] second[k]),
    ensures
        apply_outcomes(tests, first) == apply_outcomes(tests, second),
{
    lemma_results_independent_of_order(tests, first);
    lemma_results_independent_of_order(tests, second);
    assert forall|i: int| 0 <= i < tests.len() implies apply_outcomes(tests, first)[i]
        == apply_outcomes(tests, second)[i] by {
        assert(reported(second, i));
        let kb = choose|k: int| 0 <= k < second.len() && #[trigger] second[k].0 == i;
        assert(first.contains(second[kb]));
        let ka = choose|k: int| 0 <= k < first.len() && first[k] == second[kb];
        assert(apply_outcomes(tests, first)[first[ka].0] == first[ka].1);
        assert(apply_outcomes(tests, second)[second[kb].0] == second[kb].1);
    }
    assert(apply_outcomes(tests, first) =~= apply_outcomes(tests, second));
}

} // verus!
