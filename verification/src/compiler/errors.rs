//! What the compiler reports when compilation does not produce an artifact.
use vstd::prelude::*;

use crate::domain::CompilationLimitType;
use crate::text;

verus! {

#[derive(Debug, PartialEq)]
pub enum CompilationError {
    CompilationFailed { msg: String },
    CompilationLimitsExceeded(CompilationLimitType),
}

impl Clone for CompilationError {
    fn clone(&self) -> (r: Self)
        ensures
            r == *self,
    {
        match self {
            CompilationError::CompilationFailed { msg } => CompilationError::CompilationFailed {
                msg: msg.clone(),
            },
            CompilationError::CompilationLimitsExceeded(t) => {
                CompilationError::CompilationLimitsExceeded(*t)
            },
        }
    }
}

impl CompilationError {
    /// The error as text: "Compilation failed: {msg}" or
    /// "Compilation limits exceeded: {limit type}".
    pub fn message(&self) -> (r: String)
        ensures
            r@ == compilation_error_text(*self),
    {
        match self {
            CompilationError::CompilationFailed { msg } => text::join(
                "Compilation failed: ",
                msg.as_str(),
            ),
            CompilationError::CompilationLimitsExceeded(t) => text::join(
                "Compilation limits exceeded: ",
                compilation_limit_name(*t),
            ),
        }
    }
}

/// The name of a limit type, as its `Debug` form writes it.
pub open spec fn compilation_limit_name_text(t: CompilationLimitType) -> Seq<char> {
    match t {
        CompilationLimitType::Ram => "Ram"@,
        CompilationLimitType::Time => "Time"@,
        CompilationLimitType::ExecutableSize => "ExecutableSize"@,
    }
}

/// The name of a limit type, as its `Debug` form writes it.
pub fn compilation_limit_name(t: CompilationLimitType) -> (r: &'static str)
    ensures
        r@ == compilation_limit_name_text(t),
{
    match t {
        CompilationLimitType::Ram => "Ram",
        CompilationLimitType::Time => "Time",
        CompilationLimitType::ExecutableSize => "ExecutableSize",
    }
}

/// The text of a compilation error.
pub open spec fn compilation_error_text(e: CompilationError) -> Seq<char> {
    match e {
        CompilationError::CompilationFailed { msg } => "Compilation failed: "@ + msg@,
        CompilationError::CompilationLimitsExceeded(t) => "Compilation limits exceeded: "@
            + compilation_limit_name_text(t),
    }
}

} // verus!
