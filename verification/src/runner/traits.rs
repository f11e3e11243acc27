//! What a runner reports after running a compiled program.
use vstd::prelude::*;

use crate::domain::TestLimitType;

verus! {

/// The outcome of one run of a compiled program.
#[derive(Debug, PartialEq)]
pub struct RunnerResult {
    pub status: i32,
    pub stdout: String,
    pub stderr: String,
    pub execution_time_ms: u64,
    pub peak_memory_usage_bytes: u64,
}

impl Clone for RunnerResult {
    fn clone(&self) -> (r: Self)
        ensures
            r == *self,
    {
        RunnerResult {
            status: self.status,
            stdout: self.stdout.clone(),
            stderr: self.stderr.clone(),
            execution_time_ms: self.execution_time_ms,
            peak_memory_usage_bytes: self.peak_memory_usage_bytes,
        }
    }
}

#[derive(Debug, PartialEq)]
pub enum RunnerError {
    Crash { result: RunnerResult },
    LimitsExceeded { result: RunnerResult, limit_type: TestLimitType },
    FailedToLaunch { msg: String },
}

impl Clone for RunnerError {
    fn clone(&self) -> (r: Self)
        ensures
            r == *self,
    {
        match self {
            RunnerError::Crash { result } => RunnerError::Crash { result: result.clone() },
            RunnerError::LimitsExceeded { result, limit_type } => RunnerError::LimitsExceeded {
                result: result.clone(),
                limit_type: *limit_type,
            },
            RunnerError::FailedToLaunch { msg } => RunnerError::FailedToLaunch { msg: msg.clone() },
        }
    }
}

} // verus!
