//! A compiler that compiles nothing: after a set delay it answers with a set
//! result, whatever it is given.
use vstd::prelude::*;

use std::time::Duration;

use crate::compiler::errors::CompilationError;
use crate::domain::{CompilationLimits, Language};

verus! {

#[derive(Debug)]
pub struct CompilerStub {
    result: Result<(), CompilationError>,
    delay: Duration,
}

impl Clone for CompilerStub {
    fn clone(&self) -> (r: Self)
        ensures
            r == *self,
    {
        let result = match &self.result {
            Ok(u) => Ok(*u),
            Err(e) => Err(e.clone()),
        };
        CompilerStub { result, delay: self.delay }
    }
}

impl CompilerStub {
    /// The result that the stub answers with.
    pub closed spec fn answer(self) -> Result<(), CompilationError> {
        self.result
    }

    /// How long the stub waits before it answers.
    pub closed spec fn wait(self) -> Duration {
        self.delay
    }

    pub fn new(result: Result<(), CompilationError>, delay: Duration) -> (r: Self)
        ensures
            r.answer() == result,
            r.wait() == delay,
    {
        Self { result, delay }
    }

    /// How long the stub waits before it answers.
    pub fn delay(&self) -> (r: Duration)
        ensures
            r == self.wait(),
    {
        self.delay
    }

    /// The stub's answer to a compilation request; the request does not
    /// change it.
    pub fn compile(&self, source: &str, language: &Language, limits: &CompilationLimits) -> (r:
        Result<(), CompilationError>)
        ensures
            r == self.answer(),
    {
        match &self.result {
            Ok(u) => Ok(*u),
            Err(e) => Err(e.clone()),
        }
    }
}

} // verus!
