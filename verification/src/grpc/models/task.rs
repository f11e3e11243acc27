//! The states of a task on the wire.
use vstd::prelude::*;

use crate::grpc::models::{CompilationFailed, CompilationLimitsExceeded, Empty, TestsDone, TestsExecuting};

verus! {

#[derive(Clone, Debug, PartialEq)]
pub enum State {
    Accepted(Empty),
    Unavailable(Empty),
    InternalError(Empty),
    Cancelled(Empty),
    Compiling(Empty),
    CompilationFailed(CompilationFailed),
    LimitsExceeded(CompilationLimitsExceeded),
    Compiled(Empty),
    Executing(TestsExecuting),
    Done(TestsDone),
}

} // verus!
