//! Decisions of the compiling stage: the state that a task takes once the
//! executor has compiled its code, and whether it goes on to the running
//! stage. The stage reports the task as `Compiling` first, then in the state
//! decided here; a compiled task is handed to the running stage as well.
use vstd::prelude::*;

use crate::engine::traits::executor::CompileError;
use crate::domain::{Artifact, Task, TaskState, Timestamp};

verus! {

/// The state of a task whose compilation ended with `result`. An internal
/// failure of the executor ends the task in `InternalError`; its message is
/// not kept in the task.
pub open spec fn state_after_compilation(result: Result<Artifact, CompileError>) -> TaskState {
    match result {
        Ok(artifact) => TaskState::Compiled(artifact),
        Err(CompileError::CompilationFailed { msg }) => TaskState::CompilationFailed { msg },
        Err(CompileError::CompilationLimitsExceeded(limit_type)) => {
            TaskState::CompilationLimitsExceeded(limit_type)
        },
        Err(CompileError::Internal { .. }) => TaskState::InternalError,
    }
}

/// The state of a task whose compilation ended with `result`.
pub fn compilation_state(result: Result<Artifact, CompileError>) -> (r: TaskState)
    ensures
        r == state_after_compilation(result),
{
    match result {
        Ok(artifact) => TaskState::Compiled(artifact),
        Err(CompileError::CompilationFailed { msg }) => TaskState::CompilationFailed { msg },
        Err(CompileError::CompilationLimitsExceeded(limit_type)) => {
            TaskState::CompilationLimitsExceeded(limit_type)
        },
        Err(CompileError::Internal { .. }) => TaskState::InternalError,
    }
}

/// The task as the compiling stage reports it when its compilation ended with
/// `result` at time `at`, and whether it goes on to the running stage.
pub fn finish_compilation_at(task: &Task, result: Result<Artifact, CompileError>, at: Timestamp) -> (r: (
    Task,
    bool,
))
    ensures
        r.0.same_task(*task),
        r.0.state == state_after_compilation(result),
        r.0.updated_at == at,
        r.1 == result is Ok,
        r.1 <==> r.0.state is Compiled,
{
    let forward = result.is_ok();
    let state = compilation_state(result);
    (task.with_state_at(state, at), forward)
}

/// The task as the compiling stage reports it when its compilation ended with
/// `result`, updated now, and whether it goes on to the running stage.
pub fn finish_compilation(task: &Task, result: Result<Artifact, CompileError>) -> (r: (Task, bool))
    ensures
        r.0.same_task(*task),
        r.0.state == state_after_compilation(result),
        r.0.updated_at.well_formed(),
        r.1 == result is Ok,
        r.1 <==> r.0.state is Compiled,
{
    let forward = result.is_ok();
    let state = compilation_state(result);
    (task.change_state(state), forward)
}

/// The task as the compiling stage reports it before compiling: in the
/// `Compiling` state, updated now.
pub fn start_compilation(task: &Task) -> (r: Task)
    ensures
        r.same_task(*task),
        r.state is Compiling,
        r.updated_at.well_formed(),
{
    task.change_state(TaskState::Compiling)
}

} // verus!
