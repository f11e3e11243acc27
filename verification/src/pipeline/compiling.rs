//! Decisions of the compiling stage of the line-protocol service: the state
//! that a task takes once its code was compiled, and whether it goes on to
//! the running stage.
use vstd::prelude::*;

use crate::compiler::errors::CompilationError;
use crate::domain::{Artifact, Task, TaskState};

verus! {

/// The state of a task whose compilation ended with `result`.
pub open spec fn state_after_compilation(result: Result<Artifact, CompilationError>) -> TaskState {
    match result {
        Ok(artifact) => TaskState::Compiled(artifact),
        Err(CompilationError::CompilationFailed { msg }) => TaskState::CompilationFailed { msg },
        Err(CompilationError::CompilationLimitsExceeded(limit_type)) => {
            TaskState::CompilationLimitsExceeded(limit_type)
        },
    }
}

/// The state of a task whose compilation ended with `result`.
pub fn compilation_state(result: Result<Artifact, CompilationError>) -> (r: TaskState)
    ensures
        r == state_after_compilation(result),
{
    match result {
        Ok(artifact) => TaskState::Compiled(artifact),
        Err(CompilationError::CompilationFailed { msg }) => TaskState::CompilationFailed { msg },
        Err(CompilationError::CompilationLimitsExceeded(limit_type)) => {
            TaskState::CompilationLimitsExceeded(limit_type)
        },
    }
}

/// The task as the compiling stage reports it when its compilation ended with
/// `result`, updated now, and whether it goes on to the running stage.
pub fn finish_compilation(task: &Task, result: Result<Artifact, CompilationError>) -> (r: (
    Task,
    bool,
))
    ensures
        r.0.same_task(*task),
        r.0.state == state_after_compilation(result),
        r.0.updated_at.well_formed(),
        r.1 == result is Ok,
        r.1 <==> r.0.state is Compiled,
{
    let forward = result.is_ok();
    let state = compilation_state(result);
    (task.change_state(state), forward)
}

} // verus!
