//! A runner that runs nothing: after a set delay it answers with a set
//! result, whatever it is given.
use vstd::prelude::*;

use std::time::Duration;

use crate::domain::{Artifact, ExecutionLimits};
use crate::runner::traits::{RunnerError, RunnerResult};

verus! {

#[derive(Debug)]
pub struct RunnerStub {
    result: Result<RunnerResult, RunnerError>,
    delay: Duration,
}

impl Clone for RunnerStub {
    fn clone(&self) -> (r: Self)
        ensures
            r == *self,
    {
        let result = match &self.result {
            Ok(res) => Ok(res.clone()),
            Err(e) => Err(e.clone()),
        };
        RunnerStub { result, delay: self.delay }
    }
}

impl RunnerStub {
    /// The result that the stub answers with.
    pub closed spec fn answer(self) -> Result<RunnerResult, RunnerError> {
        self.result
    }

    /// How long the stub waits before it answers.
    pub closed spec fn wait(self) -> Duration {
        self.delay
    }

    pub fn new(result: Result<RunnerResult, RunnerError>, delay: Duration) -> (r: Self)
        ensures
            r.answer() == result,
            r.wait() == delay,
    {
        Self { result, delay }
    }

    /// How long the stub waits before it answers.
    pub fn delay(&self) -> (r: Duration)
        ensures
            r == self.wait(),
    {
        self.delay
    }

    /// The stub's answer to a run request; the request does not change it.
    pub fn run(&self, artifact: &Artifact, stdin: &str, limits: &ExecutionLimits) -> (r: Result<
        RunnerResult,
        RunnerError,
    >)
        ensures
            r == self.answer(),
    {
        match &self.result {
            Ok(res) => Ok(res.clone()),
            Err(e) => Err(e.clone()),
        }
    }
}

} // verus!
