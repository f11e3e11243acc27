//! # Domain Layer
//!
//! Models that describe the domain and are not tied to specific
//! implementations, data transmission and storage methods.
use vstd::prelude::*;

use crate::clock;

verus! {

/// An instant in UTC: whole seconds since the Unix epoch and the
/// nanoseconds past that second.
#[derive(Clone, Copy, Debug, PartialEq, Eq, Structural)]
pub struct Timestamp {
    pub seconds: i64,
    pub nanos: i32,
}

impl Timestamp {
    /// The nanoseconds stay below one second.
    pub open spec fn well_formed(self) -> bool {
        0 <= self.nanos < 1_000_000_000
    }
}

/// Task entity in the system. A task represents code that the user sends for
/// verification, as well as a set of test data that will be used to check the
/// code. The code receives input data through stdin and outputs data to stdout
/// and stderr.
#[derive(Clone, Debug)]
pub struct Task {
    /// The 128 bits of the task's UUID.
    pub id: u128,
    pub created_at: Timestamp,
    pub updated_at: Timestamp,
    pub code: String,
    pub language: Language,
    pub compilation_limits: CompilationLimits,
    pub execution_limits: ExecutionLimits,
    pub test_data: Vec<TestData>,
    pub state: TaskState,
}

impl Task {
    /// Everything but the state and the update time is the same in `self`
    /// and `other`.
    pub open spec fn same_task(self, other: Task) -> bool {
        &&& self.id == other.id
        &&& self.created_at == other.created_at
        &&& self.code == other.code
        &&& self.language == other.language
        &&& self.compilation_limits == other.compilation_limits
        &&& self.execution_limits == other.execution_limits
        &&& self.test_data@ == other.test_data@
    }

    /// The task with `new_state` as its state and `at` as its update time;
    /// the rest is copied.
    pub fn with_state_at(&self, new_state: TaskState, at: Timestamp) -> (r: Self)
        ensures
            r.same_task(*self),
            r.state == new_state,
            r.updated_at == at,
    {
        let test_data = self.test_data.clone();
        assert(test_data@ =~= self.test_data@);
        Task {
            id: self.id,
            created_at: self.created_at,
            updated_at: at,
            code: self.code.clone(),
            language: self.language,
            compilation_limits: self.compilation_limits,
            execution_limits: self.execution_limits,
            test_data,
            state: new_state,
        }
    }

    /// The task in `new_state`, updated now.
    pub fn change_state(&self, new_state: TaskState) -> (r: Self)
        ensures
            r.same_task(*self),
            r.state == new_state,
            r.updated_at.well_formed(),
    {
        let now = clock::now();
        self.with_state_at(new_state, now)
    }
}

#[derive(Clone, Debug)]
pub enum TaskState {
    /// Task accepted for verification.
    Accepted,
    /// Server cannot execute the task due to internal reasons.
    Unavailable,
    /// An internal failure of the server ended the task.
    InternalError,
    /// Task cancelled by user.
    Cancelled,
    /// Task is in the compilation process.
    Compiling,
    /// Task failed to compile.
    CompilationFailed { msg: String },
    /// Limits were exceeded during compilation.
    CompilationLimitsExceeded(CompilationLimitType),
    /// Task compiled successfully.
    Compiled(Artifact),
    /// Task is in the execution process. At this moment, the compiled code is
    /// run multiple times with different test data, after which the results
    /// of each run are compared with the expected result.
    Executing { tests: Vec<Test> },
    /// Task executed successfully.
    Done { results: Vec<Test> },
}

impl Default for TaskState {
    fn default() -> (r: Self)
        ensures
            r is Accepted,
    {
        TaskState::Accepted
    }
}

/// Artifact is an executable file obtained during code compilation.
/// When the compiler completes compilation, it saves the executable file
/// somewhere on disk, after which it assigns an identifier to it, by which
/// the runner can access this executable file.
#[derive(Clone, Copy, Debug, PartialEq, Eq, Structural)]
pub struct Artifact {
    /// The 128 bits of the artifact's UUID.
    pub id: u128,
    pub kind: ArtifactKind,
}

#[derive(Clone, Copy, Debug, PartialEq, Eq, Structural)]
pub enum ArtifactKind {
    Executable,
}

/// Programming language in which the code sent by the user is written, as well
/// as the compiler/interpreter/environment that will be used.
#[derive(Clone, Copy, Debug, PartialEq, Eq, Structural)]
pub enum Language {
    /// C++ with G++ compiler
    GnuCpp,
}

/// Constraints imposed on the compilation process. If a field has a value of
/// `None`, then the corresponding constraint is not applied.
#[derive(Clone, Copy, Debug, PartialEq, Eq, Structural)]
pub struct CompilationLimits {
    /// Maximum amount of time in milliseconds that can be spent on compilation.
    pub time_ms: Option<u64>,
    /// Maximum amount of RAM in bytes that can be used for compilation.
    pub memory_bytes: Option<u64>,
    /// Maximum size in bytes of the produced executable.
    pub executable_size_bytes: Option<u64>,
}

impl CompilationLimits {
    /// Limits under which nothing is constrained.
    pub fn no_limits() -> (r: Self)
        ensures
            r.time_ms is None,
            r.memory_bytes is None,
            r.executable_size_bytes is None,
    {
        CompilationLimits { time_ms: None, memory_bytes: None, executable_size_bytes: None }
    }
}

/// Constraints imposed on the execution process. If a field has a value of
/// `None`, then the corresponding constraint is not applied.
#[derive(Clone, Copy, Debug, PartialEq, Eq, Structural)]
pub struct ExecutionLimits {
    /// Maximum amount of time in milliseconds that can be spent on execution.
    pub time_ms: Option<u64>,
    /// Maximum amount of RAM in bytes that can be used for execution.
    pub memory_bytes: Option<u64>,
    /// Maximum number of PIDs (processes and threads alike) that the tested
    /// code can create during execution.
    pub pids_count: Option<u32>,
    /// Maximum size of data in stdout in bytes.
    pub stdout_size_bytes: Option<u64>,
    /// Maximum size of data in stderr in bytes.
    pub stderr_size_bytes: Option<u64>,
}

impl ExecutionLimits {
    /// Limits under which nothing is constrained.
    pub fn no_limits() -> (r: Self)
        ensures
            r.time_ms is None,
            r.memory_bytes is None,
            r.pids_count is None,
            r.stdout_size_bytes is None,
            r.stderr_size_bytes is None,
    {
        ExecutionLimits {
            time_ms: None,
            memory_bytes: None,
            pids_count: None,
            stdout_size_bytes: None,
            stderr_size_bytes: None,
        }
    }
}

/// Test data.
#[derive(Debug, PartialEq)]
pub struct TestData {
    /// Input data for the test.
    pub stdin: String,
    /// Expected stdout for the test.
    pub stdout: String,
    /// Expected stderr for the test.
    pub stderr: String,
    /// Expected exit status for the test.
    pub status: i32,
}

impl Clone for TestData {
    fn clone(&self) -> (r: Self)
        ensures
            r == *self,
    {
        TestData {
            stdin: self.stdin.clone(),
            stdout: self.stdout.clone(),
            stderr: self.stderr.clone(),
            status: self.status,
        }
    }
}

#[derive(Clone, Copy, Debug, PartialEq, Eq, Structural)]
pub enum CompilationLimitType {
    Ram,
    Time,
    ExecutableSize,
}

/// Value representing the current execution state.
#[derive(Debug, PartialEq)]
pub struct Test {
    /// Current stdout
    pub current_stdout: String,
    /// Current stderr
    pub current_stderr: String,
    /// Current state
    pub state: TestState,
}

impl Clone for Test {
    fn clone(&self) -> (r: Self)
        ensures
            r == *self,
    {
        Test {
            current_stdout: self.current_stdout.clone(),
            current_stderr: self.current_stderr.clone(),
            state: self.state.clone(),
        }
    }
}

/// Execution state
#[derive(Debug, PartialEq)]
pub enum TestState {
    /// Test not yet started
    Pending,
    /// Test is executing
    Executing,
    /// Expected output data is being compared with actual data
    Checking { resources: TestResources },
    /// Output data matched expected data, test passed successfully
    Correct { resources: TestResources, status: i32 },
    /// Output data did not match expected data, test failed
    Wrong {
        expected_stdout: String,
        expected_stderr: String,
        expected_status: i32,
        actual_status: i32,
        resources: TestResources,
    },
    /// Limits exceeded during execution
    LimitsExceeded { limit_type: TestLimitType, resources: TestResources },
    /// Program crashed during execution
    Crash { resources: TestResources },
    /// Internal error occurred during test execution
    InternalError { message: String },
}

impl Clone for TestState {
    fn clone(&self) -> (r: Self)
        ensures
            r == *self,
    {
        match self {
            TestState::Pending => TestState::Pending,
            TestState::Executing => TestState::Executing,
            TestState::Checking { resources } => TestState::Checking { resources: *resources },
            TestState::Correct { resources, status } => TestState::Correct {
                resources: *resources,
                status: *status,
            },
            TestState::Wrong {
                expected_stdout,
                expected_stderr,
                expected_status,
                actual_status,
                resources,
            } => {
                TestState::Wrong {
                    expected_stdout: expected_stdout.clone(),
                    expected_stderr: expected_stderr.clone(),
                    expected_status: *expected_status,
                    actual_status: *actual_status,
                    resources: *resources,
                }
            },
            TestState::LimitsExceeded { limit_type, resources } => TestState::LimitsExceeded {
                limit_type: *limit_type,
                resources: *resources,
            },
            TestState::Crash { resources } => TestState::Crash { resources: *resources },
            TestState::InternalError { message } => TestState::InternalError {
                message: message.clone(),
            },
        }
    }
}

/// Resources used during test execution
#[derive(Clone, Copy, Debug, PartialEq, Eq, Structural)]
pub struct TestResources {
    /// How much time was required for test execution in milliseconds
    pub execution_time_ms: u64,
    /// How much memory was used during execution at peak in bytes
    pub peak_memory_usage_bytes: u64,
}

#[derive(Clone, Copy, Debug, PartialEq, Eq, Structural)]
pub enum TestLimitType {
    Ram,
    Time,
    PidsCount,
    StdoutSize,
    StderrSize,
}

/// Changing a task's state any number of times keeps the task itself: its
/// identifier, creation time, code, language, limits and test data.
pub proof fn lemma_same_task_chain(a: Task, b: Task, c: Task)
    requires
        b.same_task(a),
        c.same_task(b),
    ensures
        c.same_task(a),
{
}

} // verus!
