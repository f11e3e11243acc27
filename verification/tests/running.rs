use coderunner::domain::{
    Artifact, ArtifactKind, CompilationLimits, ExecutionLimits, Language, Task, TaskState, Test,
    TestData, TestLimitType, TestResources, TestState, Timestamp,
};
use coderunner::engine::pipeline::running::{
    compiled_artifact, mark_executing, pending_tests, record_result, resources,
    test_from_run_result, TestRun,
};
use coderunner::engine::traits::executor::{RunError, RunResult};
use coderunner::pipeline::running as line_running;
use coderunner::runner::traits::{RunnerError, RunnerResult};

fn data(stdin: &str, stdout: &str, stderr: &str, status: i32) -> TestData {
    TestData { stdin: stdin.to_string(), stdout: stdout.to_string(), stderr: stderr.to_string(), status }
}

fn create_compiled_task(test_data: Vec<TestData>) -> Task {
    Task {
        id: 77,
        created_at: Timestamp { seconds: 1, nanos: 0 },
        updated_at: Timestamp { seconds: 1, nanos: 0 },
        code: "int main() { return 0; }".to_string(),
        language: Language::GnuCpp,
        compilation_limits: CompilationLimits::no_limits(),
        execution_limits: ExecutionLimits::no_limits(),
        test_data,
        state: TaskState::Compiled(Artifact { id: 99, kind: ArtifactKind::Executable }),
    }
}

fn ok(status: i32, stdout: &str, stderr: &str, time: u64, mem: u64) -> Result<RunResult, RunError> {
    Ok(RunResult {
        status,
        stdout: stdout.to_string(),
        stderr: stderr.to_string(),
        execution_time_ms: time,
        peak_memory_usage_bytes: mem,
    })
}

/// Drives the running stage over the results, in the order given.
fn run_all(task: &Task, results: Vec<(usize, Result<RunResult, RunError>)>) -> Vec<Vec<Test>> {
    let mut history = Vec::new();
    let mut tests = pending_tests(task);
    history.push(tests.clone());
    for i in 0..task.test_data.len() {
        mark_executing(&mut tests, i);
        history.push(tests.clone());
    }
    for (idx, result) in results {
        record_result(&mut tests, idx, &task.test_data[idx], result);
        history.push(tests.clone());
    }
    history
}

#[test]
fn running_test_successful_execution_correct_output() {
    let task = create_compiled_task(vec![data("input", "expected_output", "", 0)]);
    assert!(compiled_artifact(&task).is_some());
    let history = run_all(&task, vec![(0, ok(0, "expected_output", "", 100, 1024))]);
    assert_eq!(history.len(), 3);
    assert!(matches!(history[0][0].state, TestState::Pending));
    assert!(matches!(history[1][0].state, TestState::Executing));
    assert_eq!(
        history[2][0].state,
        TestState::Correct {
            resources: TestResources { execution_time_ms: 100, peak_memory_usage_bytes: 1024 },
            status: 0,
        }
    );
    let done = task.change_state(TaskState::Done { results: history[2].clone() });
    match &done.state {
        TaskState::Done { results } => {
            assert_eq!(results.len(), 1);
            assert!(matches!(results[0].state, TestState::Correct { .. }));
        }
        _ => panic!("Expected Done state"),
    }
}

#[test]
fn running_test_successful_execution_wrong_output() {
    let task = create_compiled_task(vec![data("input", "expected_output", "", 0)]);
    let history = run_all(&task, vec![(0, ok(-1, "actual_output", "actual_error", 150, 2048))]);
    let last = &history[2][0];
    match &last.state {
        TestState::Wrong { expected_stdout, expected_stderr, expected_status, actual_status, resources } => {
            assert_eq!(expected_stdout, "expected_output");
            assert_eq!(expected_stderr, "");
            assert_eq!(*expected_status, 0);
            assert_eq!(*actual_status, -1);
            assert_eq!(resources.execution_time_ms, 150);
            assert_eq!(resources.peak_memory_usage_bytes, 2048);
        }
        _ => panic!("Expected Wrong test state"),
    }
    assert_eq!(last.current_stdout, "actual_output");
    assert_eq!(last.current_stderr, "actual_error");
}

#[test]
fn test_execution_error() {
    let td = data("input", "expected_output", "", 0);
    let limits = test_from_run_result(
        &td,
        Err(RunError::LimitsExceeded {
            result: RunResult {
                status: 0,
                stdout: "partial_output".to_string(),
                stderr: "".to_string(),
                execution_time_ms: 2000,
                peak_memory_usage_bytes: 128 * 1024 * 1024,
            },
            limit_type: TestLimitType::Time,
        }),
    );
    assert_eq!(
        limits.state,
        TestState::LimitsExceeded {
            limit_type: TestLimitType::Time,
            resources: TestResources { execution_time_ms: 2000, peak_memory_usage_bytes: 128 * 1024 * 1024 },
        }
    );
    assert_eq!(limits.current_stdout, "partial_output");
    let internal = test_from_run_result(&td, Err(RunError::Internal { msg: "binary not found".to_string() }));
    assert_eq!(internal.state, TestState::InternalError { message: "binary not found".to_string() });
    assert_eq!(internal.current_stdout, "");
    assert_eq!(internal.current_stderr, "");
}

#[test]
fn running_test_multiple_tests() {
    let task = create_compiled_task(vec![
        data("input1", "output1", "", 0),
        data("input2", "output2", "", 0),
        data("input3", "output3", "", 0),
        data("input4", "output4", "", 0),
    ]);
    // The runs end in an order that is not the order of the tests.
    let history = run_all(
        &task,
        vec![
            (2, ok(-1, "output3", "", 120, 1024)),
            (0, ok(0, "output1", "", 100, 1024)),
            (3, ok(0, "output4", "ERROR", 120, 1024)),
            (1, ok(0, "wrong_output", "", 120, 1024)),
        ],
    );
    // 1 initial state + (2 changes for each test) * 4 tests = 9
    assert_eq!(history.len(), 9);
    let done = &history[8];
    assert!(matches!(done[0].state, TestState::Correct { .. }));
    assert_eq!(done[0].current_stdout, "output1");
    assert!(matches!(&done[1].state, TestState::Wrong { expected_status, expected_stdout, expected_stderr, .. }
        if *expected_status == 0 && expected_stdout == "output2" && expected_stderr == ""));
    assert_eq!(done[1].current_stdout, "wrong_output");
    assert!(matches!(&done[2].state, TestState::Wrong { expected_stdout, expected_status, actual_status, .. }
        if expected_stdout == "output3" && *expected_status == 0 && *actual_status == -1));
    assert_eq!(done[2].current_stdout, "output3");
    assert!(matches!(&done[3].state, TestState::Wrong { expected_stdout, .. } if expected_stdout == "output4"));
    assert_eq!(done[3].current_stderr, "ERROR");

    // The same outcomes in another order give the same tests.
    let again = run_all(
        &task,
        vec![
            (0, ok(0, "output1", "", 100, 1024)),
            (1, ok(0, "wrong_output", "", 120, 1024)),
            (2, ok(-1, "output3", "", 120, 1024)),
            (3, ok(0, "output4", "ERROR", 120, 1024)),
        ],
    );
    assert_eq!(again[8], history[8]);
}

#[test]
fn running_test_non_compiled_task_skipped() {
    let mut task = create_compiled_task(vec![data("", "", "", 0)]);
    task.state = TaskState::Compiling;
    assert_eq!(compiled_artifact(&task), None);
    task.state = TaskState::Compiled(Artifact { id: 5, kind: ArtifactKind::Executable });
    assert_eq!(compiled_artifact(&task), Some(Artifact { id: 5, kind: ArtifactKind::Executable }));
}

#[test]
fn pending_tests_match_test_data() {
    let task = create_compiled_task(vec![data("a", "b", "c", 1), data("d", "e", "f", 2)]);
    let tests = pending_tests(&task);
    assert_eq!(tests.len(), 2);
    for t in tests {
        assert_eq!(t.current_stdout, "");
        assert_eq!(t.current_stderr, "");
        assert_eq!(t.state, TestState::Pending);
    }
}

#[test]
fn resources_copy_time_and_memory() {
    let r = RunResult {
        status: 3,
        stdout: "x".to_string(),
        stderr: "y".to_string(),
        execution_time_ms: 17,
        peak_memory_usage_bytes: 4096,
    };
    assert_eq!(resources(&r), TestResources { execution_time_ms: 17, peak_memory_usage_bytes: 4096 });
}

fn runner_result(status: i32, stdout: &str, stderr: &str, time: u64, mem: u64) -> RunnerResult {
    RunnerResult {
        status,
        stdout: stdout.to_string(),
        stderr: stderr.to_string(),
        execution_time_ms: time,
        peak_memory_usage_bytes: mem,
    }
}

#[test]
fn pipeline_running_test_successful_execution_correct_output() {
    let td = data("input", "expected_output", "", 0);
    let state = line_running::test_state_from_result(&td, Ok(runner_result(0, "expected_output", "", 100, 1024)));
    assert_eq!(
        state,
        TestState::Correct {
            resources: TestResources { execution_time_ms: 100, peak_memory_usage_bytes: 1024 },
            status: 0,
        }
    );
}

#[test]
fn pipeline_running_test_successful_execution_wrong_output() {
    let td = data("input", "expected_output", "", 0);
    let state = line_running::test_state_from_result(
        &td,
        Ok(runner_result(-1, "actual_output", "actual_error", 150, 2048)),
    );
    assert_eq!(
        state,
        TestState::Wrong {
            expected_stdout: "expected_output".to_string(),
            expected_stderr: "".to_string(),
            expected_status: 0,
            actual_status: -1,
            resources: TestResources { execution_time_ms: 150, peak_memory_usage_bytes: 2048 },
        }
    );
}

#[test]
fn test_execution_crash() {
    let td = data("input", "expected_output", "", 0);
    let state = line_running::test_state_from_result(
        &td,
        Err(RunnerError::Crash { result: runner_result(-1, "", "segmentation fault", 50, 512) }),
    );
    assert_eq!(
        state,
        TestState::Crash { resources: TestResources { execution_time_ms: 50, peak_memory_usage_bytes: 512 } }
    );
}

#[test]
fn test_execution_limits_exceeded() {
    let td = data("input", "expected_output", "", 0);
    let state = line_running::test_state_from_result(
        &td,
        Err(RunnerError::LimitsExceeded {
            result: runner_result(0, "partial_output", "", 2000, 128 * 1024 * 1024),
            limit_type: TestLimitType::Time,
        }),
    );
    match state {
        TestState::LimitsExceeded { resources, limit_type } => {
            assert_eq!(resources.execution_time_ms, 2000);
            assert_eq!(limit_type, TestLimitType::Time);
        }
        _ => panic!("Expected LimitsExceeded test state"),
    }
}

#[test]
fn test_execution_internal_error() {
    let td = data("input", "expected_output", "", 0);
    let state = line_running::test_state_from_result(
        &td,
        Err(RunnerError::FailedToLaunch { msg: "binary not found".to_string() }),
    );
    assert_eq!(state, TestState::InternalError { message: "binary not found".to_string() });
}

#[test]
fn pipeline_running_test_multiple_tests() {
    let task = create_compiled_task(vec![
        data("input1", "output1", "", 0),
        data("input2", "output2", "", 0),
        data("input3", "output3", "", 0),
        data("input4", "output4", "", 0),
    ]);
    let results = vec![
        runner_result(0, "output1", "", 100, 1024),
        runner_result(0, "wrong_output", "", 120, 1024),
        runner_result(-1, "output3", "", 120, 1024),
        runner_result(0, "output4", "ERROR", 120, 1024),
    ];
    let mut tests = pending_tests(&task);
    for (i, r) in results.into_iter().enumerate() {
        let state = line_running::test_state_from_result(&task.test_data[i], Ok(r));
        line_running::set_test_state(&mut tests, i, state);
    }
    assert!(matches!(tests[0].state, TestState::Correct { .. }));
    assert!(matches!(tests[1].state, TestState::Wrong { .. }));
    assert!(matches!(tests[2].state, TestState::Wrong { .. }));
    assert!(matches!(tests[3].state, TestState::Wrong { .. }));
    // Only the state changes; the output shown stays.
    assert_eq!(tests[0].current_stdout, "");
}

fn executing_tests(report: &Task) -> Vec<Test> {
    match &report.state {
        TaskState::Executing { tests } => tests.clone(),
        other => panic!("expected Executing, got {:?}", other),
    }
}

#[test]
fn a_run_reports_twice_per_test_and_keeps_results_by_index() {
    let task = create_compiled_task(vec![
        data("input1", "output1", "", 0),
        data("input2", "output2", "", 0),
        data("input3", "output3", "", 0),
    ]);
    let (artifact, mut run, first) = TestRun::begin(task).unwrap();
    assert_eq!(artifact, Artifact { id: 99, kind: ArtifactKind::Executable });
    let mut reports = vec![first];
    assert_eq!(executing_tests(&reports[0]).len(), 3);
    assert!(executing_tests(&reports[0]).iter().all(|t| t.state == TestState::Pending));
    while run.started_count() < 3 {
        reports.push(run.start_next());
    }
    assert!(executing_tests(&reports[3]).iter().all(|t| t.state == TestState::Executing));
    for (idx, result) in [
        (2, ok(-1, "output3", "", 120, 1024)),
        (0, ok(0, "output1", "", 100, 1024)),
        (1, ok(0, "wrong", "", 110, 1024)),
    ] {
        assert!(!run.is_recorded(idx));
        reports.push(run.record(idx, result));
        assert!(run.is_recorded(idx));
    }
    assert!(run.all_recorded());
    reports.push(run.finish());
    assert_eq!(reports.len(), 2 * 3 + 2);
    assert!(reports.iter().all(|r| r.id == 77));
    match &reports[7].state {
        TaskState::Done { results } => {
            assert_eq!(
                results[0].state,
                TestState::Correct {
                    resources: TestResources { execution_time_ms: 100, peak_memory_usage_bytes: 1024 },
                    status: 0,
                }
            );
            assert!(matches!(&results[1].state, TestState::Wrong { actual_status: 0, .. }));
            assert_eq!(results[1].current_stdout, "wrong");
            assert!(matches!(&results[2].state, TestState::Wrong { expected_status: 0, actual_status: -1, .. }));
        }
        other => panic!("expected Done, got {:?}", other),
    }
}

#[test]
fn a_task_that_is_not_compiled_is_not_run() {
    let mut task = create_compiled_task(vec![data("i", "o", "", 0)]);
    task.state = TaskState::Compiling;
    assert!(TestRun::begin(task).is_none());
}
