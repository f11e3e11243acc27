//! A compiler that compiles nothing: after a set delay it answers with a set
//! result, and with a fresh artifact where that result is a success.
use vstd::prelude::*;

use std::time::Duration;

use crate::domain::{Artifact, ArtifactKind, CompilationLimits, Language};
use crate::engine::traits::compiler::CompileError;
use crate::ident;

verus! {

#[derive(Debug)]
pub struct CompilerStub {
    result: Result<(), CompileError>,
    delay: Duration,
}

impl Clone for CompilerStub {
    fn clone(&self) -> (r: Self)
        ensures
            r == *self,
    {
        let result = match &self.result {
            Ok(u) => Ok(*u),
            Err(e) => Err(e.clone()),
        };
        CompilerStub { result, delay: self.delay }
    }
}

impl CompilerStub {
    /// The result that the stub answers with.
    pub closed spec fn answer(self) -> Result<(), CompileError> {
        self.result
    }

    /// How long the stub waits before it answers.
    pub closed spec fn wait(self) -> Duration {
        self.delay
    }

    pub fn new(result: Result<(), CompileError>, delay: Duration) -> (r: Self)
        ensures
            r.answer() == result,
            r.wait() == delay,
    {
        Self { result, delay }
    }

    /// How long the stub waits before it answers.
    pub fn delay(&self) -> (r: Duration)
        ensures
            r == self.wait(),
    {
        self.delay
    }

    /// The stub's answer to a compilation request: a new executable artifact
    /// with a fresh identifier where the set result is a success, the set
    /// error otherwise. The request does not change it.
    pub fn compile(&self, source: &str, language: &Language, limits: &CompilationLimits) -> (r:
        Result<Artifact, CompileError>)
        ensures
            r is Ok <==> self.answer() is Ok,
            r matches Ok(a) ==> a.kind == ArtifactKind::Executable && ident::uuid_version(a.id) == 4,
            r matches Err(e) ==> self.answer() == Err::<(), CompileError>(e),
    {
        match &self.result {
            Ok(()) => Ok(Artifact { id: ident::new_id(), kind: ArtifactKind::Executable }),
            Err(e) => Err(e.clone()),
        }
    }
}

} // verus!
