use coderunner::compiler::errors::CompilationError;
use coderunner::domain::{
    Artifact, ArtifactKind, CompilationLimitType, CompilationLimits, ExecutionLimits, Language,
    Task, TaskState, TestData, Timestamp,
};
use coderunner::engine::pipeline::compiling::{
    compilation_state, finish_compilation, finish_compilation_at, start_compilation,
};
use coderunner::engine::traits::executor::CompileError;
use coderunner::pipeline::compiling as line_compiling;

fn create_test_task(id: u128) -> Task {
    Task {
        id,
        created_at: Timestamp { seconds: 1_700_000_000, nanos: 5 },
        updated_at: Timestamp { seconds: 1_700_000_000, nanos: 5 },
        code: "int main() { return 0; }".to_string(),
        language: Language::GnuCpp,
        compilation_limits: CompilationLimits {
            time_ms: Some(5000),
            memory_bytes: Some(128 * 1024 * 1024),
            executable_size_bytes: None,
        },
        execution_limits: ExecutionLimits {
            time_ms: Some(1000),
            memory_bytes: Some(64 * 1024 * 1024),
            pids_count: Some(1),
            stdout_size_bytes: Some(1024),
            stderr_size_bytes: Some(1024),
        },
        test_data: vec![TestData {
            stdin: "".to_string(),
            stdout: "".to_string(),
            stderr: "".to_string(),
            status: 0,
        }],
        state: TaskState::Accepted,
    }
}

fn same_task(a: &Task, b: &Task) {
    assert_eq!(a.id, b.id);
    assert_eq!(a.created_at, b.created_at);
    assert_eq!(a.code, b.code);
    assert_eq!(a.language, b.language);
    assert_eq!(a.compilation_limits, b.compilation_limits);
    assert_eq!(a.execution_limits, b.execution_limits);
    assert_eq!(a.test_data, b.test_data);
}

#[test]
fn test_successful_compilation() {
    let artifact = Artifact { id: 42, kind: ArtifactKind::Executable };
    let task = create_test_task(7);

    let compiling_task = start_compilation(&task);
    assert!(matches!(compiling_task.state, TaskState::Compiling));
    assert_eq!(compiling_task.id, task.id);

    let (compiled_task, to_running) = finish_compilation(&compiling_task, Ok(artifact));
    assert!(to_running);
    assert_eq!(compiled_task.id, task.id);
    match compiled_task.state {
        TaskState::Compiled(received) => assert_eq!(received, artifact),
        other => panic!("unexpected state {:?}", other),
    }
    same_task(&compiled_task, &task);
}

#[test]
fn test_compilation_failed() {
    let task = create_test_task(8);
    let (failed, to_running) = finish_compilation(
        &task,
        Err(CompileError::CompilationFailed { msg: "syntax error".to_string() }),
    );
    assert!(!to_running);
    assert_eq!(failed.id, task.id);
    match failed.state {
        TaskState::CompilationFailed { msg } => assert_eq!(msg, "syntax error"),
        other => panic!("unexpected state {:?}", other),
    }
}

#[test]
fn test_compilation_limits_exceeded() {
    for expected in [CompilationLimitType::Time, CompilationLimitType::Ram] {
        let task = create_test_task(9);
        let (exceeded, to_running) =
            finish_compilation(&task, Err(CompileError::CompilationLimitsExceeded(expected)));
        assert!(!to_running);
        assert_eq!(exceeded.id, task.id);
        match exceeded.state {
            TaskState::CompilationLimitsExceeded(actual) => assert_eq!(actual, expected),
            other => panic!("unexpected state {:?}", other),
        }
    }
}

#[test]
fn test_compilation_internal_error() {
    let task = create_test_task(10);
    let (failed, to_running) = finish_compilation(
        &task,
        Err(CompileError::Internal { msg: "Tux is sad and won't work :(".to_string() }),
    );
    assert!(!to_running);
    assert!(matches!(failed.state, TaskState::InternalError));
    assert_eq!(failed.id, task.id);
}

#[test]
fn test_multiple_tasks() {
    let artifact = Artifact { id: 1, kind: ArtifactKind::Executable };
    let task1 = create_test_task(100);
    let task2 = create_test_task(200);
    let (t1, f1) = finish_compilation(&start_compilation(&task1), Ok(artifact));
    let (t2, f2) = finish_compilation(&start_compilation(&task2), Ok(artifact));
    assert!(f1 && f2);
    assert_eq!(t1.id, 100);
    assert_eq!(t2.id, 200);
}

#[test]
fn compilation_at_a_given_time_sets_that_time() {
    let task = create_test_task(11);
    let at = Timestamp { seconds: 12, nanos: 34 };
    let (t, forward) = finish_compilation_at(&task, Ok(Artifact { id: 3, kind: ArtifactKind::Executable }), at);
    assert!(forward);
    assert_eq!(t.updated_at, at);
    assert_eq!(t.created_at, task.created_at);
}

#[test]
fn compilation_state_per_error() {
    assert!(matches!(
        compilation_state(Err(CompileError::Internal { msg: "x".to_string() })),
        TaskState::InternalError
    ));
    assert!(matches!(
        compilation_state(Err(CompileError::CompilationLimitsExceeded(CompilationLimitType::ExecutableSize))),
        TaskState::CompilationLimitsExceeded(CompilationLimitType::ExecutableSize)
    ));
}

#[test]
fn line_service_compilation_outcomes() {
    let task = create_test_task(12);
    let (t, forward) = line_compiling::finish_compilation(
        &task,
        Err(CompilationError::CompilationFailed { msg: "bad".to_string() }),
    );
    assert!(!forward);
    assert!(matches!(t.state, TaskState::CompilationFailed { ref msg } if msg == "bad"));
    let (t, forward) = line_compiling::finish_compilation(
        &task,
        Ok(Artifact { id: 5, kind: ArtifactKind::Executable }),
    );
    assert!(forward);
    assert!(matches!(t.state, TaskState::Compiled(Artifact { id: 5, .. })));
}

#[test]
fn change_state_keeps_the_task_and_updates_the_time() {
    let task = create_test_task(13);
    let changed = task.change_state(TaskState::Cancelled);
    same_task(&changed, &task);
    assert!(matches!(changed.state, TaskState::Cancelled));
    assert!(changed.updated_at.nanos >= 0 && changed.updated_at.nanos < 1_000_000_000);
    assert!(changed.updated_at.seconds > 1_600_000_000);
}

#[test]
fn changing_state_twice_keeps_the_task() {
    let task = create_test_task(14);
    let once = task.change_state(TaskState::Compiling);
    let twice = once.change_state(TaskState::Unavailable);
    same_task(&twice, &task);
    assert!(matches!(twice.state, TaskState::Unavailable));
}
