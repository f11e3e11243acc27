//! What a compiler reports back when it fails.
use vstd::prelude::*;

use crate::domain::CompilationLimitType;

verus! {

#[derive(Debug, PartialEq)]
pub enum CompileError {
    CompilationFailed { msg: String },
    Internal { msg: String },
    CompilationLimitsExceeded(CompilationLimitType),
}

impl Clone for CompileError {
    fn clone(&self) -> (r: Self)
        ensures
            r == *self,
    {
        match self {
            CompileError::CompilationFailed { msg } => CompileError::CompilationFailed {
                msg: msg.clone(),
            },
            CompileError::Internal { msg } => CompileError::Internal { msg: msg.clone() },
            CompileError::CompilationLimitsExceeded(t) => CompileError::CompilationLimitsExceeded(
                *t,
            ),
        }
    }
}

} // verus!
