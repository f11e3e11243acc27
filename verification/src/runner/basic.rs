//! The runner that starts compiled programs on the host. Finding the
//! executable, starting it, feeding stdin and waiting under a time limit are
//! left to the caller; what the run comes to is decided here.
use vstd::prelude::*;

use std::path::PathBuf;

use crate::domain::{ExecutionLimits, TestLimitType};
use crate::ident;
use crate::runner::traits::{RunnerError, RunnerResult};
use crate::text;

verus! {

/// The peak memory that this runner reports for every finished run; it does
/// not measure it.
pub const REPORTED_PEAK_MEMORY_BYTES: u64 = 1024 * 1024;

#[derive(Debug)]
pub struct BasicRunner {
    temp_dir: PathBuf,
}

impl BasicRunner {
    /// The directory where the runner looks for executables.
    pub closed spec fn dir(&self) -> PathBuf {
        self.temp_dir
    }

    /// A runner that looks for executables in `temp_dir`.
    pub fn with_temp_dir(temp_dir: PathBuf) -> (r: Self)
        ensures
            r.dir() == temp_dir,
    {
        BasicRunner { temp_dir }
    }

    /// The directory where the runner looks for executables.
    pub fn temp_dir(&self) -> (r: &PathBuf)
        ensures
            *r == self.dir(),
    {
        &self.temp_dir
    }
}

/// The run could not be launched: the message is `prefix` followed by
/// `detail`.
pub fn failed_to_launch(prefix: &str, detail: &str) -> (r: RunnerError)
    ensures
        r matches RunnerError::FailedToLaunch { msg } && msg@ == prefix@ + detail@,
{
    RunnerError::FailedToLaunch { msg: text::join(prefix, detail) }
}

/// No executable was found for the artifact with the identifier `id`.
pub fn executable_not_found(id: u128) -> (r: RunnerError)
    ensures
        r matches RunnerError::FailedToLaunch { msg } && msg@
            == "Executable not found for artifact: "@ + ident::uuid_text(id),
{
    let id_text = ident::id_text(id);
    failed_to_launch("Executable not found for artifact: ", id_text.as_str())
}

/// The run did not end within the time limit, after `execution_time_ms`.
pub fn timed_out(execution_time_ms: u64) -> (r: RunnerError)
    ensures
        r matches RunnerError::LimitsExceeded { result, limit_type } && limit_type
            == TestLimitType::Time && result.status == -1 && result.stdout@ == Seq::<char>::empty()
            && result.stderr@ == Seq::<char>::empty() && result.execution_time_ms
            == execution_time_ms && result.peak_memory_usage_bytes == 0,
{
    RunnerError::LimitsExceeded {
        result: RunnerResult {
            status: -1,
            stdout: String::new(),
            stderr: String::new(),
            execution_time_ms,
            peak_memory_usage_bytes: 0,
        },
        limit_type: TestLimitType::Time,
    }
}

/// `result` reports a run with this exit status, stdout, stderr and time.
pub open spec fn reports(
    result: RunnerResult,
    status: i32,
    stdout: Seq<char>,
    stderr: Seq<char>,
    execution_time_ms: u64,
) -> bool {
    &&& result.status == status
    &&& result.stdout@ == stdout
    &&& result.stderr@ == stderr
    &&& result.execution_time_ms == execution_time_ms
    &&& result.peak_memory_usage_bytes == REPORTED_PEAK_MEMORY_BYTES
}

/// The text `s` is larger in bytes than the limit, if there is one.
pub open spec fn over_limit(limit: Option<u64>, s: Seq<char>) -> bool {
    limit matches Some(l) && vstd::utf8::encode_utf8(s).len() > l
}

/// `r` is what a finished run comes to: it exited with `exit_code` (`None`
/// when a signal ended it, which counts as status -1), wrote `stdout` and
/// `stderr` and took `execution_time_ms`. Output over its limit in bytes is
/// cut to at most that many bytes, on a character boundary, and reported as
/// exceeding it, stdout first; a negative status is a crash.
pub open spec fn run_outcome(
    exit_code: Option<i32>,
    stdout: Seq<char>,
    stderr: Seq<char>,
    execution_time_ms: u64,
    limits: ExecutionLimits,
    r: Result<RunnerResult, RunnerError>,
) -> bool {
    let status: i32 = match exit_code {
        Some(c) => c,
        None => -1i32,
    };
    if over_limit(limits.stdout_size_bytes, stdout) {
        r matches Err(RunnerError::LimitsExceeded { result, limit_type }) && limit_type
            == TestLimitType::StdoutSize && reports(
            result,
            status,
            text::first_bytes(stdout, limits.stdout_size_bytes->0 as int),
            stderr,
            execution_time_ms,
        )
    } else if over_limit(limits.stderr_size_bytes, stderr) {
        r matches Err(RunnerError::LimitsExceeded { result, limit_type }) && limit_type
            == TestLimitType::StderrSize && reports(
            result,
            status,
            stdout,
            text::first_bytes(stderr, limits.stderr_size_bytes->0 as int),
            execution_time_ms,
        )
    } else if status < 0 {
        r matches Err(RunnerError::Crash { result }) && reports(
            result,
            status,
            stdout,
            stderr,
            execution_time_ms,
        )
    } else {
        r matches Ok(result) && reports(result, status, stdout, stderr, execution_time_ms)
    }
}

/// What a finished run comes to.
pub fn finish_run(
    exit_code: Option<i32>,
    stdout: String,
    stderr: String,
    execution_time_ms: u64,
    limits: &ExecutionLimits,
) -> (r: Result<RunnerResult, RunnerError>)
    ensures
        run_outcome(exit_code, stdout@, stderr@, execution_time_ms, *limits, r),
{
    let status = match exit_code {
        Some(c) => c,
        None => -1,
    };
    if let Some(limit) = limits.stdout_size_bytes {
        let size = stdout.as_str().as_bytes().len();
        if size as u64 > limit {
            let cut = text::take_bytes(stdout.as_str(), limit as usize);
            return Err(
                RunnerError::LimitsExceeded {
                    result: RunnerResult {
                        status,
                        stdout: cut,
                        stderr,
                        execution_time_ms,
                        peak_memory_usage_bytes: REPORTED_PEAK_MEMORY_BYTES,
                    },
                    limit_type: TestLimitType::StdoutSize,
                },
            );
        }
    }
    if let Some(limit) = limits.stderr_size_bytes {
        let size = stderr.as_str().as_bytes().len();
        if size as u64 > limit {
            let cut = text::take_bytes(stderr.as_str(), limit as usize);
            return Err(
                RunnerError::LimitsExceeded {
                    result: RunnerResult {
                        status,
                        stdout,
                        stderr: cut,
                        execution_time_ms,
                        peak_memory_usage_bytes: REPORTED_PEAK_MEMORY_BYTES,
                    },
                    limit_type: TestLimitType::StderrSize,
                },
            );
        }
    }
    let result = RunnerResult {
        status,
        stdout,
        stderr,
        execution_time_ms,
        peak_memory_usage_bytes: REPORTED_PEAK_MEMORY_BYTES,
    };
    if status != 0 && status < 0 {
        return Err(RunnerError::Crash { result });
    }
    Ok(result)
}

/// Each output limit is checked on its own, in bytes of UTF-8. Stdout over
/// its limit makes the run exceed `StdoutSize`, with stdout cut to a prefix of
/// at most that many bytes and stderr kept whole. Otherwise stderr over its
/// limit makes it exceed `StderrSize`, whether or not stdout has a limit,
/// with stderr cut the same way and stdout kept whole. Within both limits
/// the run is kept as it is: a crash when its status is negative, a result
/// otherwise.
pub proof fn lemma_output_limits_each_apply(
    exit_code: Option<i32>,
    stdout: Seq<char>,
    stderr: Seq<char>,
    execution_time_ms: u64,
    limits: ExecutionLimits,
    r: Result<RunnerResult, RunnerError>,
)
    requires
        run_outcome(exit_code, stdout, stderr, execution_time_ms, limits, r),
    ensures
        (limits.stdout_size_bytes is Some && vstd::utf8::encode_utf8(stdout).len()
            > limits.stdout_size_bytes->0) ==> (r matches Err(
            RunnerError::LimitsExceeded { result, limit_type },
        ) && {
            &&& limit_type == TestLimitType::StdoutSize
            &&& result.stdout@ == stdout.take(result.stdout@.len() as int)
            &&& vstd::utf8::encode_utf8(result.stdout@).len() <= limits.stdout_size_bytes->0
            &&& result.stderr@ == stderr
        }),
        !(limits.stdout_size_bytes is Some && vstd::utf8::encode_utf8(stdout).len()
            > limits.stdout_size_bytes->0) && (limits.stderr_size_bytes is Some
            && vstd::utf8::encode_utf8(stderr).len() > limits.stderr_size_bytes->0) ==> (r matches Err(
            RunnerError::LimitsExceeded { result, limit_type },
        ) && {
            &&& limit_type == TestLimitType::StderrSize
            &&& result.stderr@ == stderr.take(result.stderr@.len() as int)
            &&& vstd::utf8::encode_utf8(result.stderr@).len() <= limits.stderr_size_bytes->0
            &&& result.stdout@ == stdout
        }),
        !(limits.stdout_size_bytes matches Some(l) && vstd::utf8::encode_utf8(stdout).len() > l)
            && !(limits.stderr_size_bytes matches Some(l) && vstd::utf8::encode_utf8(stderr).len()
            > l) ==> {
            let status: i32 = match exit_code {
                Some(c) => c,
                None => -1i32,
            };
            &&& status < 0 ==> (r matches Err(RunnerError::Crash { result }) && result.status
                == status && result.stdout@ == stdout && result.stderr@ == stderr)
            &&& status >= 0 ==> (r matches Ok(result) && result.status == status && result.stdout@
                == stdout && result.stderr@ == stderr)
        },
{
    if let Some(l) = limits.stdout_size_bytes {
        text::lemma_first_bytes(stdout, l as int);
    }
    if let Some(l) = limits.stderr_size_bytes {
        text::lemma_first_bytes(stderr, l as int);
    }
}

/// What sampling the memory of a running program shows against the limits,
/// given the sampled usage `current_memory` (`None` when it could not be
/// read, which counts as zero): the peak seen, whether a limit was exceeded,
/// and which. Without a memory limit nothing is sampled.
pub fn check_memory(current_memory: Option<u64>, limits: &ExecutionLimits) -> (r: (
    u64,
    bool,
    Option<TestLimitType>,
))
    ensures
        match limits.memory_bytes {
            None => r == (0u64, false, None::<TestLimitType>),
            Some(limit) => {
                let current: u64 = match current_memory {
                    Some(m) => m,
                    None => 0u64,
                };
                &&& r.0 == current
                &&& r.1 == (current > limit)
                &&& r.2 == if current > limit {
                    Some(TestLimitType::Ram)
                } else {
                    None
                }
            },
        },
{
    let mut peak_memory: u64 = 0;
    let mut limit_exceeded = false;
    let mut limit_type = None;
    if let Some(memory_limit) = limits.memory_bytes {
        let current = match current_memory {
            Some(m) => m,
            None => 0,
        };
        if current > peak_memory {
            peak_memory = current;
        }
        if current > memory_limit {
            limit_exceeded = true;
            limit_type = Some(TestLimitType::Ram);
        }
    }
    (peak_memory, limit_exceeded, limit_type)
}

} // verus!
