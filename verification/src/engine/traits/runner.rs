//! What a runner of compiled programs reports back.
use vstd::prelude::*;

use crate::domain::TestLimitType;

verus! {

/// The outcome of one run of a compiled program.
#[derive(Debug, PartialEq)]
pub struct RunResult {
    pub status: i32,
    pub stdout: String,
    pub stderr: String,
    pub execution_time_ms: u64,
    pub peak_memory_usage_bytes: u64,
}

impl Clone for RunResult {
    fn clone(&self) -> (r: Self)
        ensures
            r == *self,
    {
        RunResult {
            status: self.status,
            stdout: self.stdout.clone(),
            stderr: self.stderr.clone(),
            execution_time_ms: self.execution_time_ms,
            peak_memory_usage_bytes: self.peak_memory_usage_bytes,
        }
    }
}

#[derive(Debug, PartialEq)]
pub enum RunError {
    Crash { result: RunResult },
    LimitsExceeded { result: RunResult, limit_type: TestLimitType },
    Internal { msg: String },
}

impl Clone for RunError {
    fn clone(&self) -> (r: Self)
        ensures
            r == *self,
    {
        match self {
            RunError::Crash { result } => RunError::Crash { result: result.clone() },
            RunError::LimitsExceeded { result, limit_type } => RunError::LimitsExceeded {
                result: result.clone(),
                limit_type: *limit_type,
            },
            RunError::Internal { msg } => RunError::Internal { msg: msg.clone() },
        }
    }
}

} // verus!
