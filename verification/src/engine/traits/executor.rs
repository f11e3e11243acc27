//! What an executor, which both compiles and runs code, reports back.
use vstd::prelude::*;

use crate::domain::{CompilationLimitType, TestLimitType};

verus! {

#[derive(Debug, PartialEq)]
pub enum CompileError {
    CompilationFailed { msg: String },
    Internal { msg: String },
    CompilationLimitsExceeded(CompilationLimitType),
}

impl Clone for CompileError {
    fn clone(&self) -> (r: Self)
        ensures
            r == *self,
    {
        match self {
            CompileError::CompilationFailed { msg } => CompileError::CompilationFailed {
                msg: msg.clone(),
            },
            CompileError::Internal { msg } => CompileError::Internal { msg: msg.clone() },
            CompileError::CompilationLimitsExceeded(t) => CompileError::CompilationLimitsExceeded(
                *t,
            ),
        }
    }
}

/// The outcome of one run of a compiled program.
#[derive(Debug, PartialEq)]
pub struct RunResult {
    pub status: i32,
    pub stdout: String,
    pub stderr: String,
    pub execution_time_ms: u64,
    pub peak_memory_usage_bytes: u64,
}

impl Clone for RunResult {
    fn clone(&self) -> (r: Self)
        ensures
            r == *self,
    {
        RunResult {
            status: self.status,
            stdout: self.stdout.clone(),
            stderr: self.stderr.clone(),
            execution_time_ms: self.execution_time_ms,
            peak_memory_usage_bytes: self.peak_memory_usage_bytes,
        }
    }
}

#[derive(Debug, PartialEq)]
pub enum RunError {
    LimitsExceeded { result: RunResult, limit_type: TestLimitType },
    Internal { msg: String },
}

impl Clone for RunError {
    fn clone(&self) -> (r: Self)
        ensures
            r == *self,
    {
        match self {
            RunError::LimitsExceeded { result, limit_type } => RunError::LimitsExceeded {
                result: result.clone(),
                limit_type: *limit_type,
            },
            RunError::Internal { msg } => RunError::Internal { msg: msg.clone() },
        }
    }
}

} // verus!
