//! Conversions between the wire messages of the testing service and the
//! domain. A request becomes a new task once it is checked; a task is sent
//! back to the client in its wire form after each change.
use vstd::prelude::*;

use crate::clock;
use crate::domain;
use crate::grpc::models::{self, compilation_limits_exceeded, task, test_limits_exceeded};
use crate::ident;
use crate::text;

verus! {

/// The largest code, in bytes, that a request may carry.
pub const MAX_CODE_SIZE: usize = 200 * 1024;

#[derive(Debug, PartialEq)]
pub enum ConversionError {
    MissingField { field: String },
    CodeIsTooLarge,
}

impl ConversionError {
    /// The error as text.
    pub fn message(&self) -> (r: String)
        ensures
            r@ == conversion_error_text(*self),
    {
        match self {
            ConversionError::MissingField { field } => text::join(
                "Missing required field: ",
                field.as_str(),
            ),
            ConversionError::CodeIsTooLarge => String::from_str(
                "Code is too large, max size is 204800 bytes",
            ),
        }
    }
}

/// The text of a conversion error.
pub open spec fn conversion_error_text(e: ConversionError) -> Seq<char> {
    match e {
        ConversionError::MissingField { field } => "Missing required field: "@ + field@,
        ConversionError::CodeIsTooLarge => "Code is too large, max size is 204800 bytes"@,
    }
}

/// The size in bytes of `code` in UTF-8, as `str::len` gives it.
pub open spec fn code_size(code: Seq<char>) -> usize {
    text::utf8_len(code)
}

// ---- From the wire to the domain ----

pub open spec fn language_from_model(lang: models::Language) -> domain::Language {
    match lang {
        models::Language::GnuCpp => domain::Language::GnuCpp,
    }
}

impl vstd::std_specs::convert::FromSpecImpl<models::Language> for domain::Language {
    open spec fn obeys_from_spec() -> bool {
        true
    }

    open spec fn from_spec(v: models::Language) -> Self {
        language_from_model(v)
    }
}

impl From<models::Language> for domain::Language {
    fn from(lang: models::Language) -> Self {
        match lang {
            models::Language::GnuCpp => domain::Language::GnuCpp,
        }
    }
}

pub open spec fn compilation_limits_from_model(l: models::CompilationLimits) -> domain::CompilationLimits {
    domain::CompilationLimits {
        time_ms: l.time_ms,
        memory_bytes: l.memory_bytes,
        executable_size_bytes: l.executable_size_bytes,
    }
}

impl vstd::std_specs::convert::FromSpecImpl<models::CompilationLimits> for domain::CompilationLimits {
    open spec fn obeys_from_spec() -> bool {
        true
    }

    open spec fn from_spec(v: models::CompilationLimits) -> Self {
        compilation_limits_from_model(v)
    }
}

impl From<models::CompilationLimits> for domain::CompilationLimits {
    fn from(limits: models::CompilationLimits) -> Self {
        domain::CompilationLimits {
            time_ms: limits.time_ms,
            memory_bytes: limits.memory_bytes,
            executable_size_bytes: limits.executable_size_bytes,
        }
    }
}

pub open spec fn execution_limits_from_model(l: models::ExecutionLimits) -> domain::ExecutionLimits {
    domain::ExecutionLimits {
        time_ms: l.time_ms,
        memory_bytes: l.memory_bytes,
        pids_count: l.pids_count,
        stdout_size_bytes: l.stdout_size_bytes,
        stderr_size_bytes: l.stderr_size_bytes,
    }
}

impl vstd::std_specs::convert::FromSpecImpl<models::ExecutionLimits> for domain::ExecutionLimits {
    open spec fn obeys_from_spec() -> bool {
        true
    }

    open spec fn from_spec(v: models::ExecutionLimits) -> Self {
        execution_limits_from_model(v)
    }
}

impl From<models::ExecutionLimits> for domain::ExecutionLimits {
    fn from(limits: models::ExecutionLimits) -> Self {
        domain::ExecutionLimits {
            time_ms: limits.time_ms,
            memory_bytes: limits.memory_bytes,
            pids_count: limits.pids_count,
            stdout_size_bytes: limits.stdout_size_bytes,
            stderr_size_bytes: limits.stderr_size_bytes,
        }
    }
}

pub open spec fn test_data_from_model(t: models::TestData) -> domain::TestData {
    domain::TestData { stdin: t.stdin, stdout: t.stdout, stderr: t.stderr, status: t.status }
}

impl vstd::std_specs::convert::FromSpecImpl<models::TestData> for domain::TestData {
    open spec fn obeys_from_spec() -> bool {
        true
    }

    open spec fn from_spec(v: models::TestData) -> Self {
        test_data_from_model(v)
    }
}

impl From<models::TestData> for domain::TestData {
    fn from(test_data: models::TestData) -> Self {
        domain::TestData {
            stdin: test_data.stdin,
            stdout: test_data.stdout,
            stderr: test_data.stderr,
            status: test_data.status,
        }
    }
}

pub open spec fn test_resources_from_model(r: models::TestResources) -> domain::TestResources {
    domain::TestResources {
        execution_time_ms: r.execution_time_ms as u64,
        peak_memory_usage_bytes: r.peak_memory_usage_bytes as u64,
    }
}

impl vstd::std_specs::convert::FromSpecImpl<models::TestResources> for domain::TestResources {
    open spec fn obeys_from_spec() -> bool {
        true
    }

    open spec fn from_spec(v: models::TestResources) -> Self {
        test_resources_from_model(v)
    }
}

impl From<models::TestResources> for domain::TestResources {
    fn from(resources: models::TestResources) -> Self {
        domain::TestResources {
            execution_time_ms: resources.execution_time_ms as u64,
            peak_memory_usage_bytes: resources.peak_memory_usage_bytes as u64,
        }
    }
}

pub open spec fn compilation_limit_type_from_model(t: compilation_limits_exceeded::LimitType) -> domain::CompilationLimitType {
    match t {
        compilation_limits_exceeded::LimitType::Ram => domain::CompilationLimitType::Ram,
        compilation_limits_exceeded::LimitType::Time => domain::CompilationLimitType::Time,
        compilation_limits_exceeded::LimitType::ExecutableSize => {
            domain::CompilationLimitType::ExecutableSize
        },
    }
}

impl vstd::std_specs::convert::FromSpecImpl<compilation_limits_exceeded::LimitType> for domain::CompilationLimitType {
    open spec fn obeys_from_spec() -> bool {
        true
    }

    open spec fn from_spec(v: compilation_limits_exceeded::LimitType) -> Self {
        compilation_limit_type_from_model(v)
    }
}

impl From<compilation_limits_exceeded::LimitType> for domain::CompilationLimitType {
    fn from(limit_type: compilation_limits_exceeded::LimitType) -> Self {
        match limit_type {
            compilation_limits_exceeded::LimitType::Ram => domain::CompilationLimitType::Ram,
            compilation_limits_exceeded::LimitType::Time => domain::CompilationLimitType::Time,
            compilation_limits_exceeded::LimitType::ExecutableSize => {
                domain::CompilationLimitType::ExecutableSize
            },
        }
    }
}

pub open spec fn test_limit_type_from_model(t: test_limits_exceeded::LimitType) -> domain::TestLimitType {
    match t {
        test_limits_exceeded::LimitType::Ram => domain::TestLimitType::Ram,
        test_limits_exceeded::LimitType::Time => domain::TestLimitType::Time,
        test_limits_exceeded::LimitType::Pids => domain::TestLimitType::PidsCount,
        test_limits_exceeded::LimitType::StdoutSize => domain::TestLimitType::StdoutSize,
        test_limits_exceeded::LimitType::StderrSize => domain::TestLimitType::StderrSize,
    }
}

impl vstd::std_specs::convert::FromSpecImpl<test_limits_exceeded::LimitType> for domain::TestLimitType {
    open spec fn obeys_from_spec() -> bool {
        true
    }

    open spec fn from_spec(v: test_limits_exceeded::LimitType) -> Self {
        test_limit_type_from_model(v)
    }
}

impl From<test_limits_exceeded::LimitType> for domain::TestLimitType {
    fn from(limit_type: test_limits_exceeded::LimitType) -> Self {
        match limit_type {
            test_limits_exceeded::LimitType::Ram => domain::TestLimitType::Ram,
            test_limits_exceeded::LimitType::Time => domain::TestLimitType::Time,
            test_limits_exceeded::LimitType::Pids => domain::TestLimitType::PidsCount,
            test_limits_exceeded::LimitType::StdoutSize => domain::TestLimitType::StdoutSize,
            test_limits_exceeded::LimitType::StderrSize => domain::TestLimitType::StderrSize,
        }
    }
}

/// The test data of a request, each converted, in order.
pub fn test_data_from_models(data: &Vec<models::TestData>) -> (r: Vec<domain::TestData>)
    ensures
        r@ == data@.map_values(|t: models::TestData| test_data_from_model(t)),
{
    let n = data.len();
    let mut r: Vec<domain::TestData> = Vec::new();
    let mut i: usize = 0;
    while i < n
        invariant
            n == data@.len(),
            i <= n,
            r@ == data@.take(i as int).map_values(|t: models::TestData| test_data_from_model(t)),
        decreases n - i,
    {
        let item = data[i].clone();
        r.push(domain::TestData::from(item));
        assert(data@.take(i + 1) =~= data@.take(i as int).push(data@[i as int]));
        i = i + 1;
    }
    assert(data@.take(n as int) =~= data@);
    r
}

/// `task` is the task that the request `req` becomes under the identifier
/// `id`, created at `now`.
pub open spec fn task_from_request(req: models::SubmitCodeRequest, id: u128, now: domain::Timestamp, task: domain::Task) -> bool {
    &&& task.id == id
    &&& task.created_at == now
    &&& task.updated_at == now
    &&& task.code == req.code
    &&& task.language == domain::Language::GnuCpp
    &&& task.compilation_limits == compilation_limits_from_model(req.compilation_limits->0)
    &&& task.execution_limits == execution_limits_from_model(req.execution_limits->0)
    &&& task.test_data@ == req.test_data@.map_values(|t: models::TestData| test_data_from_model(t))
    &&& task.state is Accepted
}

/// The outcome of checking the request `req` under the identifier `id` at
/// `now`: code over the size limit is refused first, then a request without
/// compilation limits, then one without execution limits; any other request
/// becomes a task.
pub open spec fn request_outcome(req: models::SubmitCodeRequest, id: u128, now: domain::Timestamp, r: Result<domain::Task, ConversionError>) -> bool {
    if code_size(req.code@) > MAX_CODE_SIZE {
        r == Err::<domain::Task, ConversionError>(ConversionError::CodeIsTooLarge)
    } else if req.compilation_limits is None {
        r matches Err(ConversionError::MissingField { field }) && field@ == "compilation_limits"@
    } else if req.execution_limits is None {
        r matches Err(ConversionError::MissingField { field }) && field@ == "execution_limits"@
    } else {
        r matches Ok(task) && task_from_request(req, id, now, task)
    }
}

impl domain::Task {
    /// The task that the request `req` becomes under the identifier `id`,
    /// created at `now`, or the reason why the request is refused.
    pub fn try_from_at(req: models::SubmitCodeRequest, id: u128, now: domain::Timestamp) -> (r: Result<
        domain::Task,
        ConversionError,
    >)
        ensures
            request_outcome(req, id, now, r),
    {
        if req.code.as_str().len() > MAX_CODE_SIZE {
            return Err(ConversionError::CodeIsTooLarge);
        }
        let language = domain::Language::from(req.language());
        let compilation_limits = match req.compilation_limits {
            Some(l) => domain::CompilationLimits::from(l),
            None => {
                proof {
                    reveal_strlit("compilation_limits");
                }
                return Err(
                    ConversionError::MissingField {
                        field: String::from_str("compilation_limits"),
                    },
                );
            },
        };
        let execution_limits = match req.execution_limits {
            Some(l) => domain::ExecutionLimits::from(l),
            None => {
                proof {
                    reveal_strlit("execution_limits");
                }
                return Err(
                    ConversionError::MissingField { field: String::from_str("execution_limits") },
                );
            },
        };
        let test_data = test_data_from_models(&req.test_data);
        Ok(
            domain::Task {
                id,
                created_at: now,
                updated_at: now,
                code: req.code,
                language,
                compilation_limits,
                execution_limits,
                test_data,
                state: domain::TaskState::Accepted,
            },
        )
    }

    /// The new task that the request `req` becomes, with a fresh identifier,
    /// created now; or the reason why the request is refused.
    pub fn try_from(req: models::SubmitCodeRequest) -> (r: Result<domain::Task, ConversionError>)
        ensures
            exists|id: u128, now: domain::Timestamp|
                ident::uuid_version(id) == 4 && now.well_formed() && #[trigger] request_outcome(
                    req,
                    id,
                    now,
                    r,
                ),
    {
        let id = ident::new_id();
        let now = clock::now();
        let r = domain::Task::try_from_at(req, id, now);
        assert(request_outcome(req, id, now, r));
        r
    }
}

// ---- From the domain to the wire ----

pub open spec fn language_to_model(lang: domain::Language) -> models::Language {
    match lang {
        domain::Language::GnuCpp => models::Language::GnuCpp,
    }
}

impl vstd::std_specs::convert::FromSpecImpl<domain::Language> for models::Language {
    open spec fn obeys_from_spec() -> bool {
        true
    }

    open spec fn from_spec(v: domain::Language) -> Self {
        language_to_model(v)
    }
}

impl From<domain::Language> for models::Language {
    fn from(lang: domain::Language) -> Self {
        match lang {
            domain::Language::GnuCpp => models::Language::GnuCpp,
        }
    }
}

pub open spec fn compilation_limits_to_model(l: domain::CompilationLimits) -> models::CompilationLimits {
    models::CompilationLimits {
        time_ms: l.time_ms,
        memory_bytes: l.memory_bytes,
        executable_size_bytes: l.executable_size_bytes,
    }
}

impl vstd::std_specs::convert::FromSpecImpl<domain::CompilationLimits> for models::CompilationLimits {
    open spec fn obeys_from_spec() -> bool {
        true
    }

    open spec fn from_spec(v: domain::CompilationLimits) -> Self {
        compilation_limits_to_model(v)
    }
}

impl From<domain::CompilationLimits> for models::CompilationLimits {
    fn from(limits: domain::CompilationLimits) -> Self {
        models::CompilationLimits {
            time_ms: limits.time_ms,
            memory_bytes: limits.memory_bytes,
            executable_size_bytes: limits.executable_size_bytes,
        }
    }
}

pub open spec fn execution_limits_to_model(l: domain::ExecutionLimits) -> models::ExecutionLimits {
    models::ExecutionLimits {
        time_ms: l.time_ms,
        memory_bytes: l.memory_bytes,
        pids_count: l.pids_count,
        stdout_size_bytes: l.stdout_size_bytes,
        stderr_size_bytes: l.stderr_size_bytes,
    }
}

impl vstd::std_specs::convert::FromSpecImpl<domain::ExecutionLimits> for models::ExecutionLimits {
    open spec fn obeys_from_spec() -> bool {
        true
    }

    open spec fn from_spec(v: domain::ExecutionLimits) -> Self {
        execution_limits_to_model(v)
    }
}

impl From<domain::ExecutionLimits> for models::ExecutionLimits {
    fn from(limits: domain::ExecutionLimits) -> Self {
        models::ExecutionLimits {
            time_ms: limits.time_ms,
            memory_bytes: limits.memory_bytes,
            pids_count: limits.pids_count,
            stdout_size_bytes: limits.stdout_size_bytes,
            stderr_size_bytes: limits.stderr_size_bytes,
        }
    }
}

pub open spec fn test_data_to_model(t: domain::TestData) -> models::TestData {
    models::TestData { stdin: t.stdin, stdout: t.stdout, stderr: t.stderr, status: t.status }
}

impl vstd::std_specs::convert::FromSpecImpl<domain::TestData> for models::TestData {
    open spec fn obeys_from_spec() -> bool {
        true
    }

    open spec fn from_spec(v: domain::TestData) -> Self {
        test_data_to_model(v)
    }
}

impl From<domain::TestData> for models::TestData {
    fn from(test_data: domain::TestData) -> Self {
        models::TestData {
            stdin: test_data.stdin,
            stdout: test_data.stdout,
            stderr: test_data.stderr,
            status: test_data.status,
        }
    }
}

pub open spec fn test_resources_to_model(r: domain::TestResources) -> models::TestResources {
    models::TestResources {
        execution_time_ms: r.execution_time_ms as i64,
        peak_memory_usage_bytes: r.peak_memory_usage_bytes as i64,
    }
}

impl vstd::std_specs::convert::FromSpecImpl<domain::TestResources> for models::TestResources {
    open spec fn obeys_from_spec() -> bool {
        true
    }

    open spec fn from_spec(v: domain::TestResources) -> Self {
        test_resources_to_model(v)
    }
}

impl From<domain::TestResources> for models::TestResources {
    fn from(resources: domain::TestResources) -> Self {
        models::TestResources {
            execution_time_ms: resources.execution_time_ms as i64,
            peak_memory_usage_bytes: resources.peak_memory_usage_bytes as i64,
        }
    }
}

pub open spec fn compilation_limit_type_to_model(t: domain::CompilationLimitType) -> compilation_limits_exceeded::LimitType {
    match t {
        domain::CompilationLimitType::Ram => compilation_limits_exceeded::LimitType::Ram,
        domain::CompilationLimitType::Time => compilation_limits_exceeded::LimitType::Time,
        domain::CompilationLimitType::ExecutableSize => {
            compilation_limits_exceeded::LimitType::ExecutableSize
        },
    }
}

impl vstd::std_specs::convert::FromSpecImpl<domain::CompilationLimitType> for compilation_limits_exceeded::LimitType {
    open spec fn obeys_from_spec() -> bool {
        true
    }

    open spec fn from_spec(v: domain::CompilationLimitType) -> Self {
        compilation_limit_type_to_model(v)
    }
}

impl From<domain::CompilationLimitType> for compilation_limits_exceeded::LimitType {
    fn from(limit_type: domain::CompilationLimitType) -> Self {
        match limit_type {
            domain::CompilationLimitType::Ram => compilation_limits_exceeded::LimitType::Ram,
            domain::CompilationLimitType::Time => compilation_limits_exceeded::LimitType::Time,
            domain::CompilationLimitType::ExecutableSize => {
                compilation_limits_exceeded::LimitType::ExecutableSize
            },
        }
    }
}

pub open spec fn test_limit_type_to_model(t: domain::TestLimitType) -> test_limits_exceeded::LimitType {
    match t {
        domain::TestLimitType::Ram => test_limits_exceeded::LimitType::Ram,
        domain::TestLimitType::Time => test_limits_exceeded::LimitType::Time,
        domain::TestLimitType::PidsCount => test_limits_exceeded::LimitType::Pids,
        domain::TestLimitType::StdoutSize => test_limits_exceeded::LimitType::StdoutSize,
        domain::TestLimitType::StderrSize => test_limits_exceeded::LimitType::StderrSize,
    }
}

impl vstd::std_specs::convert::FromSpecImpl<domain::TestLimitType> for test_limits_exceeded::LimitType {
    open spec fn obeys_from_spec() -> bool {
        true
    }

    open spec fn from_spec(v: domain::TestLimitType) -> Self {
        test_limit_type_to_model(v)
    }
}

impl From<domain::TestLimitType> for test_limits_exceeded::LimitType {
    fn from(limit_type: domain::TestLimitType) -> Self {
        match limit_type {
            domain::TestLimitType::Ram => test_limits_exceeded::LimitType::Ram,
            domain::TestLimitType::Time => test_limits_exceeded::LimitType::Time,
            domain::TestLimitType::PidsCount => test_limits_exceeded::LimitType::Pids,
            domain::TestLimitType::StdoutSize => test_limits_exceeded::LimitType::StdoutSize,
            domain::TestLimitType::StderrSize => test_limits_exceeded::LimitType::StderrSize,
        }
    }
}

pub open spec fn test_state_to_model(state: domain::TestState) -> models::test::State {
    match state {
        domain::TestState::Pending => models::test::State::Pending(models::Empty {  }),
        domain::TestState::Executing => models::test::State::Executing(models::Empty {  }),
        domain::TestState::Checking { resources } => models::test::State::Checking(
            models::TestChecking { resources: Some(test_resources_to_model(resources)) },
        ),
        domain::TestState::Correct { resources, status } => models::test::State::Correct(
            models::TestCorrect { resources: Some(test_resources_to_model(resources)), status },
        ),
        domain::TestState::Wrong {
            expected_stdout,
            expected_stderr,
            expected_status,
            actual_status,
            resources,
        } => {
            models::test::State::Wrong(
                models::TestWrong {
                    expected_stdout,
                    expected_stderr,
                    expected_status,
                    actual_status,
                    resources: Some(test_resources_to_model(resources)),
                },
            )
        },
        domain::TestState::LimitsExceeded { limit_type, resources } => models::test::State::LimitsExceeded(
            models::TestLimitsExceeded {
                limit_type: test_limit_type_to_model(limit_type).number(),
                resources: Some(test_resources_to_model(resources)),
            },
        ),
        domain::TestState::Crash { resources } => models::test::State::Crash(
            models::TestCrash { resources: Some(test_resources_to_model(resources)) },
        ),
        domain::TestState::InternalError { .. } => models::test::State::InternalError(models::Empty {  }),
    }
}

impl vstd::std_specs::convert::FromSpecImpl<domain::TestState> for models::test::State {
    open spec fn obeys_from_spec() -> bool {
        true
    }

    open spec fn from_spec(v: domain::TestState) -> Self {
        test_state_to_model(v)
    }
}

impl From<domain::TestState> for models::test::State {
    fn from(state: domain::TestState) -> Self {
        match state {
            domain::TestState::Pending => models::test::State::Pending(models::Empty {  }),
            domain::TestState::Executing => models::test::State::Executing(models::Empty {  }),
            domain::TestState::Checking { resources } => models::test::State::Checking(
                models::TestChecking { resources: Some(models::TestResources::from(resources)) },
            ),
            domain::TestState::Correct { resources, status } => models::test::State::Correct(
                models::TestCorrect {
                    resources: Some(models::TestResources::from(resources)),
                    status,
                },
            ),
            domain::TestState::Wrong {
                expected_stdout,
                expected_stderr,
                expected_status,
                actual_status,
                resources,
            } => models::test::State::Wrong(
                models::TestWrong {
                    expected_stdout,
                    expected_stderr,
                    expected_status,
                    actual_status,
                    resources: Some(models::TestResources::from(resources)),
                },
            ),
            domain::TestState::LimitsExceeded { limit_type, resources } => {
                models::test::State::LimitsExceeded(
                    models::TestLimitsExceeded {
                        limit_type: test_limits_exceeded::LimitType::from(limit_type).as_i32(),
                        resources: Some(models::TestResources::from(resources)),
                    },
                )
            },
            domain::TestState::Crash { resources } => models::test::State::Crash(
                models::TestCrash { resources: Some(models::TestResources::from(resources)) },
            ),
            domain::TestState::InternalError { message: _ } => models::test::State::InternalError(
                models::Empty {  },
            ),
        }
    }
}

pub open spec fn test_to_model(t: domain::Test) -> models::Test {
    models::Test {
        state: Some(test_state_to_model(t.state)),
        stdout: t.current_stdout,
        stderr: t.current_stderr,
    }
}

impl vstd::std_specs::convert::FromSpecImpl<domain::Test> for models::Test {
    open spec fn obeys_from_spec() -> bool {
        true
    }

    open spec fn from_spec(v: domain::Test) -> Self {
        test_to_model(v)
    }
}

impl From<domain::Test> for models::Test {
    fn from(test: domain::Test) -> Self {
        models::Test {
            state: Some(models::test::State::from(test.state)),
            stdout: test.current_stdout,
            stderr: test.current_stderr,
        }
    }
}

pub open spec fn test_result_to_model(t: domain::Test) -> models::TestResult {
    models::TestResult { state: Some(test_to_model(t)) }
}

impl vstd::std_specs::convert::FromSpecImpl<domain::Test> for models::TestResult {
    open spec fn obeys_from_spec() -> bool {
        true
    }

    open spec fn from_spec(v: domain::Test) -> Self {
        test_result_to_model(v)
    }
}

impl From<domain::Test> for models::TestResult {
    fn from(test: domain::Test) -> Self {
        models::TestResult { state: Some(models::Test::from(test)) }
    }
}

/// The tests in their wire form, in order.
pub fn tests_to_models(tests: &Vec<domain::Test>) -> (r: Vec<models::Test>)
    ensures
        r@ == tests@.map_values(|t: domain::Test| test_to_model(t)),
{
    let n = tests.len();
    let mut r: Vec<models::Test> = Vec::new();
    let mut i: usize = 0;
    while i < n
        invariant
            n == tests@.len(),
            i <= n,
            r@ == tests@.take(i as int).map_values(|t: domain::Test| test_to_model(t)),
        decreases n - i,
    {
        let item = tests[i].clone();
        r.push(models::Test::from(item));
        assert(tests@.take(i + 1) =~= tests@.take(i as int).push(tests@[i as int]));
        i = i + 1;
    }
    assert(tests@.take(n as int) =~= tests@);
    r
}

/// `s` is the wire form of the task state `state`.
pub open spec fn task_state_model(state: domain::TaskState, s: task::State) -> bool {
    match state {
        domain::TaskState::Accepted => s == task::State::Accepted(models::Empty {  }),
        domain::TaskState::Unavailable => s == task::State::Unavailable(models::Empty {  }),
        domain::TaskState::InternalError => s == task::State::InternalError(models::Empty {  }),
        domain::TaskState::Cancelled => s == task::State::Cancelled(models::Empty {  }),
        domain::TaskState::Compiling => s == task::State::Compiling(models::Empty {  }),
        domain::TaskState::CompilationFailed { msg } => s == task::State::CompilationFailed(
            models::CompilationFailed { message: msg },
        ),
        domain::TaskState::CompilationLimitsExceeded(limit_type) => s
            == task::State::LimitsExceeded(
            models::CompilationLimitsExceeded {
                limit_type: compilation_limit_type_to_model(limit_type).number(),
            },
        ),
        domain::TaskState::Compiled(_) => s == task::State::Compiled(models::Empty {  }),
        domain::TaskState::Executing { tests } => s matches task::State::Executing(e)
            && e.tests@ == tests@.map_values(|t: domain::Test| test_to_model(t)),
        domain::TaskState::Done { results } => s matches task::State::Done(d) && d.tests@
            == results@.map_values(|t: domain::Test| test_to_model(t)),
    }
}

/// The wire form of a task state.
pub fn task_state_to_model(state: domain::TaskState) -> (r: task::State)
    ensures
        task_state_model(state, r),
{
    match state {
        domain::TaskState::Accepted => task::State::Accepted(models::Empty {  }),
        domain::TaskState::Unavailable => task::State::Unavailable(models::Empty {  }),
        domain::TaskState::InternalError => task::State::InternalError(models::Empty {  }),
        domain::TaskState::Cancelled => task::State::Cancelled(models::Empty {  }),
        domain::TaskState::Compiling => task::State::Compiling(models::Empty {  }),
        domain::TaskState::CompilationFailed { msg } => task::State::CompilationFailed(
            models::CompilationFailed { message: msg },
        ),
        domain::TaskState::CompilationLimitsExceeded(limit_type) => task::State::LimitsExceeded(
            models::CompilationLimitsExceeded {
                limit_type: compilation_limits_exceeded::LimitType::from(limit_type).as_i32(),
            },
        ),
        domain::TaskState::Compiled(_) => task::State::Compiled(models::Empty {  }),
        domain::TaskState::Executing { tests } => task::State::Executing(
            models::TestsExecuting { tests: tests_to_models(&tests) },
        ),
        domain::TaskState::Done { results } => task::State::Done(
            models::TestsDone { tests: tests_to_models(&results) },
        ),
    }
}

/// The wire form of an instant.
pub open spec fn timestamp_to_model(t: domain::Timestamp) -> models::Timestamp {
    models::Timestamp { seconds: t.seconds, nanos: t.nanos }
}

/// The wire form of an instant.
pub fn chrono_to_prost(t: domain::Timestamp) -> (r: models::Timestamp)
    ensures
        r == timestamp_to_model(t),
{
    models::Timestamp { seconds: t.seconds, nanos: t.nanos }
}

/// `m` is the wire form of `task`.
pub open spec fn task_model(task: domain::Task, m: models::Task) -> bool {
    &&& m.id@ == ident::uuid_text(task.id)
    &&& m.created_at == Some(timestamp_to_model(task.created_at))
    &&& m.updated_at == Some(timestamp_to_model(task.updated_at))
    &&& m.language == language_to_model(task.language).number()
    &&& m.state matches Some(s) && task_state_model(task.state, s)
}

/// The wire form of a task.
pub fn task_to_model(task: domain::Task) -> (r: models::Task)
    ensures
        task_model(task, r),
{
    models::Task {
        id: ident::id_text(task.id),
        created_at: Some(chrono_to_prost(task.created_at)),
        updated_at: Some(chrono_to_prost(task.updated_at)),
        language: models::Language::from(task.language).as_i32(),
        state: Some(task_state_to_model(task.state)),
    }
}

// ---- Laws of the conversions ----

/// Sending a value to the wire and reading it back gives the value again, for
/// each value that travels both ways.
pub proof fn lemma_domain_round_trip(
    lang: domain::Language,
    compilation: domain::CompilationLimits,
    execution: domain::ExecutionLimits,
    data: domain::TestData,
    resources: domain::TestResources,
    compilation_limit: domain::CompilationLimitType,
    test_limit: domain::TestLimitType,
)
    ensures
        language_from_model(language_to_model(lang)) == lang,
        compilation_limits_from_model(compilation_limits_to_model(compilation)) == compilation,
        execution_limits_from_model(execution_limits_to_model(execution)) == execution,
        test_data_from_model(test_data_to_model(data)) == data,
        test_resources_from_model(test_resources_to_model(resources)) == resources,
        compilation_limit_type_from_model(compilation_limit_type_to_model(compilation_limit))
            == compilation_limit,
        test_limit_type_from_model(test_limit_type_to_model(test_limit)) == test_limit,
{
    let t = resources.execution_time_ms;
    let m = resources.peak_memory_usage_bytes;
    assert((t as i64) as u64 == t) by (bit_vector);
    assert((m as i64) as u64 == m) by (bit_vector);
}

/// Reading a value from the wire and sending it back gives the value again,
/// for each value that travels both ways.
pub proof fn lemma_model_round_trip(
    lang: models::Language,
    compilation: models::CompilationLimits,
    execution: models::ExecutionLimits,
    data: models::TestData,
    resources: models::TestResources,
    compilation_limit: compilation_limits_exceeded::LimitType,
    test_limit: test_limits_exceeded::LimitType,
)
    ensures
        language_to_model(language_from_model(lang)) == lang,
        compilation_limits_to_model(compilation_limits_from_model(compilation)) == compilation,
        execution_limits_to_model(execution_limits_from_model(execution)) == execution,
        test_data_to_model(test_data_from_model(data)) == data,
        test_resources_to_model(test_resources_from_model(resources)) == resources,
        compilation_limit_type_to_model(compilation_limit_type_from_model(compilation_limit))
            == compilation_limit,
        test_limit_type_to_model(test_limit_type_from_model(test_limit)) == test_limit,
{
    let t = resources.execution_time_ms;
    let m = resources.peak_memory_usage_bytes;
    assert((t as u64) as i64 == t) by (bit_vector);
    assert((m as u64) as i64 == m) by (bit_vector);
}

/// Test data cross the wire field by field in both directions: input to
/// input, expected stdout to expected stdout, expected stderr to expected
/// stderr, status to status.
pub proof fn lemma_test_data_fields_kept(t: models::TestData, d: domain::TestData)
    ensures
        test_data_from_model(t).stdin == t.stdin,
        test_data_from_model(t).stdout == t.stdout,
        test_data_from_model(t).stderr == t.stderr,
        test_data_from_model(t).status == t.status,
        test_data_to_model(d).stdin == d.stdin,
        test_data_to_model(d).stdout == d.stdout,
        test_data_to_model(d).stderr == d.stderr,
        test_data_to_model(d).status == d.status,
{
}

/// An accepted request becomes a task that keeps, in order and field by
/// field, the request's test data, and keeps its code and each of its limits.
pub proof fn lemma_accepted_request_kept(
    req: models::SubmitCodeRequest,
    id: u128,
    now: domain::Timestamp,
    r: Result<domain::Task, ConversionError>,
)
    requires
        request_outcome(req, id, now, r),
        r is Ok,
    ensures
        ({
            let task = r->Ok_0;
            &&& task.id == id
            &&& task.code == req.code
            &&& task.state is Accepted
            &&& task.test_data@.len() == req.test_data@.len()
            &&& forall|i: int|
                0 <= i < req.test_data@.len() ==> {
                    &&& #[trigger] task.test_data@[i].stdin == req.test_data@[i].stdin
                    &&& task.test_data@[i].stdout == req.test_data@[i].stdout
                    &&& task.test_data@[i].stderr == req.test_data@[i].stderr
                    &&& task.test_data@[i].status == req.test_data@[i].status
                }
            &&& req.compilation_limits matches Some(c) && {
                &&& task.compilation_limits.time_ms == c.time_ms
                &&& task.compilation_limits.memory_bytes == c.memory_bytes
                &&& task.compilation_limits.executable_size_bytes == c.executable_size_bytes
            }
            &&& req.execution_limits matches Some(e) && {
                &&& task.execution_limits.time_ms == e.time_ms
                &&& task.execution_limits.memory_bytes == e.memory_bytes
                &&& task.execution_limits.pids_count == e.pids_count
                &&& task.execution_limits.stdout_size_bytes == e.stdout_size_bytes
                &&& task.execution_limits.stderr_size_bytes == e.stderr_size_bytes
            }
        }),
{
}

/// Each limit travels under its own name and number: for a test, memory is
/// 0, time 1, PIDs 2, stdout size 3 and stderr size 4; for a compilation,
/// memory is 0, time 1 and executable size 2. Read back, each number names
/// the same limit.
pub proof fn lemma_limit_names_and_numbers()
    ensures
        test_limit_type_to_model(domain::TestLimitType::Ram) == test_limits_exceeded::LimitType::Ram,
        test_limit_type_to_model(domain::TestLimitType::Time) == test_limits_exceeded::LimitType::Time,
        test_limit_type_to_model(domain::TestLimitType::PidsCount) == test_limits_exceeded::LimitType::Pids,
        test_limit_type_to_model(domain::TestLimitType::StdoutSize)
            == test_limits_exceeded::LimitType::StdoutSize,
        test_limit_type_to_model(domain::TestLimitType::StderrSize)
            == test_limits_exceeded::LimitType::StderrSize,
        test_limit_type_to_model(domain::TestLimitType::Ram).number() == 0,
        test_limit_type_to_model(domain::TestLimitType::Time).number() == 1,
        test_limit_type_to_model(domain::TestLimitType::PidsCount).number() == 2,
        test_limit_type_to_model(domain::TestLimitType::StdoutSize).number() == 3,
        test_limit_type_to_model(domain::TestLimitType::StderrSize).number() == 4,
        test_limit_type_from_model(test_limits_exceeded::LimitType::Ram) == domain::TestLimitType::Ram,
        test_limit_type_from_model(test_limits_exceeded::LimitType::Time) == domain::TestLimitType::Time,
        test_limit_type_from_model(test_limits_exceeded::LimitType::Pids)
            == domain::TestLimitType::PidsCount,
        test_limit_type_from_model(test_limits_exceeded::LimitType::StdoutSize)
            == domain::TestLimitType::StdoutSize,
        test_limit_type_from_model(test_limits_exceeded::LimitType::StderrSize)
            == domain::TestLimitType::StderrSize,
        compilation_limit_type_to_model(domain::CompilationLimitType::Ram).number() == 0,
        compilation_limit_type_to_model(domain::CompilationLimitType::Time).number() == 1,
        compilation_limit_type_to_model(domain::CompilationLimitType::ExecutableSize).number() == 2,
        compilation_limit_type_from_model(compilation_limits_exceeded::LimitType::Ram)
            == domain::CompilationLimitType::Ram,
        compilation_limit_type_from_model(compilation_limits_exceeded::LimitType::Time)
            == domain::CompilationLimitType::Time,
        compilation_limit_type_from_model(compilation_limits_exceeded::LimitType::ExecutableSize)
            == domain::CompilationLimitType::ExecutableSize,
        forall|resources: domain::TestResources|
            #[trigger] test_state_to_model(
                domain::TestState::LimitsExceeded { limit_type: domain::TestLimitType::Ram, resources },
            ) == models::test::State::LimitsExceeded(
                models::TestLimitsExceeded {
                    limit_type: 0,
                    resources: Some(test_resources_to_model(resources)),
                },
            ),
        forall|resources: domain::TestResources|
            #[trigger] test_state_to_model(
                domain::TestState::LimitsExceeded {
                    limit_type: domain::TestLimitType::StdoutSize,
                    resources,
                },
            ) == models::test::State::LimitsExceeded(
                models::TestLimitsExceeded {
                    limit_type: 3,
                    resources: Some(test_resources_to_model(resources)),
                },
            ),
{
}

/// Different limits travel as different numbers.
pub proof fn lemma_limit_numbers_distinct(
    a: domain::CompilationLimitType,
    b: domain::CompilationLimitType,
    c: domain::TestLimitType,
    d: domain::TestLimitType,
)
    ensures
        compilation_limit_type_to_model(a).number() == compilation_limit_type_to_model(b).number()
            ==> a == b,
        test_limit_type_to_model(c).number() == test_limit_type_to_model(d).number() ==> c == d,
{
}

} // verus!
