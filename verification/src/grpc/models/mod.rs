//! The messages of the testing service's wire protocol.
use vstd::prelude::*;

pub mod compilation_limits_exceeded;
pub mod task;
pub mod test;
pub mod test_limits_exceeded;

verus! {

#[derive(Clone, Copy, Debug, PartialEq, Eq, Structural)]
pub struct Empty {}

/// Languages of the protocol; a language travels as its number.
#[derive(Clone, Copy, Debug, PartialEq, Eq, Structural)]
pub enum Language {
    GnuCpp,
}

impl Language {
    /// The number that stands for the language on the wire.
    pub open spec fn number(self) -> i32 {
        match self {
            Language::GnuCpp => 0,
        }
    }

    /// The number that stands for the language on the wire.
    pub fn as_i32(self) -> (r: i32)
        ensures
            r == self.number(),
    {
        match self {
            Language::GnuCpp => 0,
        }
    }

    /// The language with the number `value`, if there is one.
    pub fn from_i32(value: i32) -> (r: Option<Language>)
        ensures
            r matches Some(l) ==> l.number() == value,
            r is None <==> value != 0,
    {
        if value == 0 {
            Some(Language::GnuCpp)
        } else {
            None
        }
    }
}

#[derive(Clone, Copy, Debug, PartialEq, Eq, Structural)]
pub struct CompilationLimits {
    pub time_ms: Option<u64>,
    pub memory_bytes: Option<u64>,
    pub executable_size_bytes: Option<u64>,
}

#[derive(Clone, Copy, Debug, PartialEq, Eq, Structural)]
pub struct ExecutionLimits {
    pub time_ms: Option<u64>,
    pub memory_bytes: Option<u64>,
    pub pids_count: Option<u32>,
    pub stdout_size_bytes: Option<u64>,
    pub stderr_size_bytes: Option<u64>,
}

#[derive(Debug, PartialEq)]
pub struct TestData {
    pub stdin: String,
    pub stdout: String,
    pub stderr: String,
    pub status: i32,
}

impl Clone for TestData {
    fn clone(&self) -> (r: Self)
        ensures
            r == *self,
    {
        TestData {
            stdin: self.stdin.clone(),
            stdout: self.stdout.clone(),
            stderr: self.stderr.clone(),
            status: self.status,
        }
    }
}

/// A request to test code against test data.
#[derive(Clone, Debug, PartialEq)]
pub struct SubmitCodeRequest {
    pub code: String,
    /// The number of the language.
    pub language: i32,
    pub compilation_limits: Option<CompilationLimits>,
    pub execution_limits: Option<ExecutionLimits>,
    pub test_data: Vec<TestData>,
}

impl SubmitCodeRequest {
    /// The language of the request; a number that names no language stands
    /// for the default one, `GnuCpp`.
    pub fn language(&self) -> (r: Language)
        ensures
            r == Language::GnuCpp,
    {
        match Language::from_i32(self.language) {
            Some(l) => l,
            None => Language::GnuCpp,
        }
    }
}

/// An instant: seconds since the Unix epoch and nanoseconds past them.
#[derive(Clone, Copy, Debug, PartialEq, Eq, Structural)]
pub struct Timestamp {
    pub seconds: i64,
    pub nanos: i32,
}

/// The state of a task as it is sent to the client.
#[derive(Clone, Debug, PartialEq)]
pub struct Task {
    pub id: String,
    pub created_at: Option<Timestamp>,
    pub updated_at: Option<Timestamp>,
    /// The number of the language.
    pub language: i32,
    pub state: Option<task::State>,
}

#[derive(Clone, Copy, Debug, PartialEq, Eq, Structural)]
pub struct TestResources {
    pub execution_time_ms: i64,
    pub peak_memory_usage_bytes: i64,
}

#[derive(Clone, Copy, Debug, PartialEq, Eq, Structural)]
pub struct TestChecking {
    pub resources: Option<TestResources>,
}

#[derive(Clone, Copy, Debug, PartialEq, Eq, Structural)]
pub struct TestCorrect {
    pub resources: Option<TestResources>,
    /// The exit status of the run.
    pub status: i32,
}

#[derive(Debug, PartialEq)]
pub struct TestWrong {
    pub expected_stdout: String,
    pub expected_stderr: String,
    pub expected_status: i32,
    /// The exit status of the run.
    pub actual_status: i32,
    pub resources: Option<TestResources>,
}

impl Clone for TestWrong {
    fn clone(&self) -> (r: Self)
        ensures
            r == *self,
    {
        TestWrong {
            expected_stdout: self.expected_stdout.clone(),
            expected_stderr: self.expected_stderr.clone(),
            expected_status: self.expected_status,
            actual_status: self.actual_status,
            resources: self.resources,
        }
    }
}

#[derive(Clone, Copy, Debug, PartialEq, Eq, Structural)]
pub struct TestLimitsExceeded {
    /// The number of the limit that was exceeded.
    pub limit_type: i32,
    pub resources: Option<TestResources>,
}

#[derive(Clone, Copy, Debug, PartialEq, Eq, Structural)]
pub struct TestCrash {
    pub resources: Option<TestResources>,
}

/// A test as it is sent to the client.
#[derive(Clone, Debug, PartialEq)]
pub struct Test {
    pub state: Option<test::State>,
    pub stdout: String,
    pub stderr: String,
}

#[derive(Clone, Debug, PartialEq)]
pub struct TestResult {
    pub state: Option<Test>,
}

#[derive(Clone, Debug, PartialEq)]
pub struct CompilationFailed {
    pub message: String,
}

#[derive(Clone, Copy, Debug, PartialEq, Eq, Structural)]
pub struct CompilationLimitsExceeded {
    /// The number of the limit that was exceeded.
    pub limit_type: i32,
}

#[derive(Clone, Debug, PartialEq)]
pub struct TestsExecuting {
    pub tests: Vec<Test>,
}

#[derive(Clone, Debug, PartialEq)]
pub struct TestsDone {
    pub tests: Vec<Test>,
}

} // verus!
