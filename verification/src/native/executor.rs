//! Decisions of the executor that compiles and runs code directly on Linux:
//! compilation under `systemd-run` in a transient scope whose journal tells
//! why it failed, and runs in fresh namespaces inside a cgroup scope. The
//! system calls, the processes and the messages to systemd are left to the
//! caller; the commands, names, properties and verdicts are decided here.
use vstd::prelude::*;

use crate::domain::{CompilationLimitType, CompilationLimits, ExecutionLimits, TestLimitType};
use crate::engine::traits::executor::{CompileError, RunError, RunResult};
use crate::ident;
use crate::text;

verus! {

/// Where the artifact is copied inside the container before it is started.
pub const CONTAINER_ARTIFACT_PATH: &'static str = "/tmp/artifact";

/// What the journal of a failed compilation scope says about its end.
#[derive(Clone, Copy, Debug, PartialEq, Eq, Structural)]
pub enum CrashReason {
    OomKiller,
    Timeout,
    Other,
}

/// How a process ended, as it is passed between processes.
#[derive(Clone, Copy, Debug, PartialEq, Eq, Structural)]
pub enum SerializableWaitStatus {
    /// Pid and exit code.
    Exited(i32, i32),
    /// Pid, signal and whether a core was dumped.
    Signaled(i32, i32, bool),
    /// Pid and signal.
    Stopped(i32, i32),
    /// Pid, signal and event.
    PtraceEvent(i32, i32, i32),
    /// Pid.
    PtraceSyscall(i32),
    /// Pid.
    Continued(i32),
    StillAlive,
}

impl vstd::std_specs::convert::FromSpecImpl<String> for CompileError {
    open spec fn obeys_from_spec() -> bool {
        true
    }

    open spec fn from_spec(v: String) -> Self {
        CompileError::Internal { msg: v }
    }
}

impl From<String> for CompileError {
    fn from(err: String) -> Self {
        CompileError::Internal { msg: err }
    }
}

impl vstd::std_specs::convert::FromSpecImpl<String> for RunError {
    open spec fn obeys_from_spec() -> bool {
        true
    }

    open spec fn from_spec(v: String) -> Self {
        RunError::Internal { msg: v }
    }
}

impl From<String> for RunError {
    fn from(err: String) -> Self {
        RunError::Internal { msg: err }
    }
}

/// The texts of a list of strings.
pub open spec fn texts(v: Seq<String>) -> Seq<Seq<char>> {
    v.map_values(|s: String| s@)
}

/// The name of the systemd scope that compiles into the artifact `id`.
pub fn compile_scope_name(id: u128) -> (r: String)
    ensures
        r@ == "coderunner-compile-"@ + ident::uuid_text(id),
{
    let id_text = ident::id_text(id);
    text::join("coderunner-compile-", id_text.as_str())
}

/// The name of the systemd scope that holds the run of the artifact `id`.
pub fn container_scope_name(id: u128) -> (r: String)
    ensures
        r@ == "container-"@ + ident::uuid_text(id) + ".scope"@,
{
    let id_text = ident::id_text(id);
    let mut r = text::join("container-", id_text.as_str());
    r.append(".scope");
    r
}

/// The file name of the artifact `id` in the executor's directory.
pub fn artifact_file_name(id: u128) -> (r: String)
    ensures
        r@ == ident::uuid_text(id) + ".out"@,
{
    let mut r = ident::id_text(id);
    r.append(".out");
    r
}

/// The file name of the source compiled into the artifact `id`.
pub fn source_file_name(id: u128) -> (r: String)
    ensures
        r@ == ident::uuid_text(id) + ".cpp"@,
{
    let mut r = ident::id_text(id);
    r.append(".cpp");
    r
}

/// The unit whose journal tells how the scope `scope_name` ended.
pub fn journal_unit(scope_name: &str) -> (r: String)
    ensures
        r@ == scope_name@ + ".scope"@,
{
    let mut r = String::from_str(scope_name);
    r.append(".scope");
    r
}

/// The command that compiles `source_path` into `artifact_path` with the
/// compiler at `gnucpp_path`, statically linked when asked.
pub open spec fn compiler_command_text(
    gnucpp_path: Seq<char>,
    artifact_path: Seq<char>,
    source_path: Seq<char>,
    static_linking: bool,
) -> Seq<Seq<char>> {
    seq![gnucpp_path, "-o"@, artifact_path, source_path] + if static_linking {
        seq!["-static"@]
    } else {
        Seq::empty()
    }
}

/// The command that compiles `source_path` into `artifact_path`.
pub fn compiler_command(
    gnucpp_path: &str,
    artifact_path: &str,
    source_path: &str,
    static_linking: bool,
) -> (r: Vec<String>)
    ensures
        texts(r@) == compiler_command_text(gnucpp_path@, artifact_path@, source_path@, static_linking),
{
    let mut r: Vec<String> = Vec::new();
    r.push(String::from_str(gnucpp_path));
    r.push(String::from_str("-o"));
    r.push(String::from_str(artifact_path));
    r.push(String::from_str(source_path));
    if static_linking {
        r.push(String::from_str("-static"));
    }
    assert(texts(r@) =~= compiler_command_text(
        gnucpp_path@,
        artifact_path@,
        source_path@,
        static_linking,
    ));
    r
}

/// The properties that bound the compilation's memory: no swap and at most
/// the limit, when there is a limit.
pub open spec fn memory_properties_text(limits: CompilationLimits) -> Seq<Seq<char>> {
    match limits.memory_bytes {
        Some(m) => seq!["-p"@, "MemorySwapMax=0"@, "-p"@, "MemoryMax="@ + text::decimal(m as nat)],
        None => Seq::empty(),
    }
}

/// The properties that bound the compilation's time, when there is a limit.
pub open spec fn time_properties_text(limits: CompilationLimits) -> Seq<Seq<char>> {
    match limits.time_ms {
        Some(t) => seq!["-p"@, "RuntimeMaxSec="@ + text::decimal(t as nat) + "ms"@],
        None => Seq::empty(),
    }
}

/// The arguments of `systemd-run` that run `command` in the user scope
/// `scope_name` under the compilation limits.
pub open spec fn systemd_run_args_text(
    scope_name: Seq<char>,
    limits: CompilationLimits,
    command: Seq<Seq<char>>,
) -> Seq<Seq<char>> {
    seq!["--user"@, "--scope"@, "-u"@, scope_name] + memory_properties_text(limits)
        + time_properties_text(limits) + seq!["--"@] + command
}

/// The arguments of `systemd-run` that run `command` in the user scope
/// `scope_name` under the compilation limits.
pub fn systemd_run_args(scope_name: &str, limits: &CompilationLimits, command: &Vec<String>) -> (r:
    Vec<String>)
    ensures
        texts(r@) == systemd_run_args_text(scope_name@, *limits, texts(command@)),
{
    let mut r: Vec<String> = Vec::new();
    r.push(String::from_str("--user"));
    r.push(String::from_str("--scope"));
    r.push(String::from_str("-u"));
    r.push(String::from_str(scope_name));
    let ghost head = texts(r@);
    assert(head =~= seq!["--user"@, "--scope"@, "-u"@, scope_name@]);
    if let Some(memory_bytes) = limits.memory_bytes {
        r.push(String::from_str("-p"));
        r.push(String::from_str("MemorySwapMax=0"));
        r.push(String::from_str("-p"));
        let amount = text::decimal_text(memory_bytes);
        r.push(text::join("MemoryMax=", amount.as_str()));
    }
    let ghost with_memory = texts(r@);
    assert(with_memory =~= head + memory_properties_text(*limits));
    if let Some(time_ms) = limits.time_ms {
        r.push(String::from_str("-p"));
        let amount = text::decimal_text(time_ms);
        let mut prop = text::join("RuntimeMaxSec=", amount.as_str());
        prop.append("ms");
        r.push(prop);
    }
    let ghost with_time = texts(r@);
    assert(with_time =~= with_memory + time_properties_text(*limits));
    r.push(String::from_str("--"));
    let ghost before_command = texts(r@);
    assert(before_command =~= with_time + seq!["--"@]);
    let n = command.len();
    let mut i: usize = 0;
    while i < n
        invariant
            n == command@.len(),
            i <= n,
            texts(r@) == before_command + texts(command@.take(i as int)),
        decreases n - i,
    {
        let ghost prev = r@;
        r.push(command[i].clone());
        assert(command@.take(i + 1) =~= command@.take(i as int).push(command@[i as int]));
        assert(texts(r@) =~= texts(prev).push(command@[i as int]@));
        assert(texts(command@.take(i + 1)) =~= texts(command@.take(i as int)).push(
            command@[i as int]@,
        ));
        assert(texts(r@) =~= before_command + texts(command@.take(i + 1)));
        i = i + 1;
    }
    assert(command@.take(n as int) =~= command@);
    r
}

/// The crash reason that a journal's text shows, if any: a timeout first,
/// then the out-of-memory killer.
pub open spec fn crash_reason_of(logs: Seq<char>) -> Option<CrashReason> {
    if text::contains_text(logs, "Failed with result 'timeout'"@) {
        Some(CrashReason::Timeout)
    } else if text::contains_text(logs, "Failed with result 'oom-kill'"@) {
        Some(CrashReason::OomKiller)
    } else {
        None
    }
}

/// The crash reason that a journal's text shows, if any.
pub fn crash_reason_in_logs(logs: &str) -> (r: Option<CrashReason>)
    ensures
        r == crash_reason_of(logs@),
{
    if text::text_contains(logs, "Failed with result 'timeout'") {
        Some(CrashReason::Timeout)
    } else if text::text_contains(logs, "Failed with result 'oom-kill'") {
        Some(CrashReason::OomKiller)
    } else {
        None
    }
}

/// Where the reading of a scope's journal stands: the number of the next
/// reading and how long to wait after it when it shows nothing.
#[derive(Clone, Copy, Debug, PartialEq, Eq, Structural)]
pub struct JournalPoll {
    pub attempt: u32,
    pub delay_ms: u64,
}

/// The first reading of the journal, with the first wait.
pub fn first_poll(init_delay_ms: u64) -> (r: JournalPoll)
    ensures
        r == (JournalPoll { attempt: 1, delay_ms: init_delay_ms }),
{
    JournalPoll { attempt: 1, delay_ms: init_delay_ms }
}

/// Whether the journal is read again looking for a crash reason: the first
/// `max_retries - 1` readings do so; after them one last reading is taken as
/// it is.
pub fn may_poll(poll: &JournalPoll, max_retries: u32) -> (r: bool)
    requires
        max_retries >= 1,
    ensures
        r == (poll.attempt <= max_retries - 1),
{
    poll.attempt <= max_retries - 1
}

/// Twice `ms`, or the largest wait there is when that does not fit.
pub open spec fn doubled(ms: u64) -> u64 {
    if ms * 2 <= u64::MAX {
        (ms * 2) as u64
    } else {
        u64::MAX
    }
}

/// Twice `ms`, or the largest wait there is when that does not fit.
pub fn double_ms(ms: u64) -> (r: u64)
    ensures
        r == doubled(ms),
{
    if ms <= u64::MAX / 2 {
        ms * 2
    } else {
        u64::MAX
    }
}

/// What a reading of the journal that showed `logs` leads to: the crash
/// reason it shows, or the next reading after a wait, which doubles.
pub fn after_poll(poll: JournalPoll, logs: &str) -> (r: Result<CrashReason, JournalPoll>)
    requires
        poll.attempt < u32::MAX,
    ensures
        match crash_reason_of(logs@) {
            Some(reason) => r == Ok::<CrashReason, JournalPoll>(reason),
            None => r == Err::<CrashReason, JournalPoll>(
                JournalPoll { attempt: (poll.attempt + 1) as u32, delay_ms: doubled(poll.delay_ms) },
            ),
        },
{
    match crash_reason_in_logs(logs) {
        Some(reason) => Ok(reason),
        None => Err(
            JournalPoll { attempt: poll.attempt + 1, delay_ms: double_ms(poll.delay_ms) },
        ),
    }
}

/// How many times the overlay of the container's root is mounted.
pub const MOUNT_ATTEMPTS: u32 = 5;

/// The wait after the first failed mount of the overlay.
pub const FIRST_MOUNT_DELAY_MS: u64 = 100;

/// Where the mounting of the overlay stands: the number of the next attempt
/// and how long to wait when it fails.
#[derive(Clone, Copy, Debug, PartialEq, Eq, Structural)]
pub struct MountRetry {
    pub attempt: u32,
    pub delay_ms: u64,
}

/// What follows an attempt to mount the overlay.
#[derive(Clone, Copy, Debug, PartialEq, Eq, Structural)]
pub enum MountStep {
    /// The attempt succeeded; the next one follows at once.
    Next(MountRetry),
    /// The attempt failed; the next one follows after the wait.
    WaitThenNext { wait_ms: u64, next: MountRetry },
    /// The last attempt failed: the run cannot go on.
    GiveUp,
}

/// The first attempt to mount the overlay.
pub fn first_mount() -> (r: MountRetry)
    ensures
        r == (MountRetry { attempt: 1, delay_ms: FIRST_MOUNT_DELAY_MS }),
{
    MountRetry { attempt: 1, delay_ms: FIRST_MOUNT_DELAY_MS }
}

/// Whether another attempt to mount the overlay is made: the attempts are
/// `1..=MOUNT_ATTEMPTS`, whatever their outcome.
pub fn may_mount(retry: &MountRetry) -> (r: bool)
    ensures
        r == (retry.attempt <= MOUNT_ATTEMPTS),
{
    retry.attempt <= MOUNT_ATTEMPTS
}

/// What follows the attempt `retry` when the mount succeeded (`mounted`) or
/// failed: the next attempt at once, the next attempt after a wait that then
/// doubles, or, when the last attempt failed, giving up.
pub fn after_mount(retry: MountRetry, mounted: bool) -> (r: MountStep)
    requires
        retry.attempt <= MOUNT_ATTEMPTS,
    ensures
        r == (if mounted {
            MountStep::Next(MountRetry { attempt: (retry.attempt + 1) as u32, delay_ms: retry.delay_ms })
        } else if retry.attempt == MOUNT_ATTEMPTS {
            MountStep::GiveUp
        } else {
            MountStep::WaitThenNext {
                wait_ms: retry.delay_ms,
                next: MountRetry {
                    attempt: (retry.attempt + 1) as u32,
                    delay_ms: doubled(retry.delay_ms),
                },
            }
        }),
{
    if mounted {
        MountStep::Next(MountRetry { attempt: retry.attempt + 1, delay_ms: retry.delay_ms })
    } else if retry.attempt == MOUNT_ATTEMPTS {
        MountStep::GiveUp
    } else {
        MountStep::WaitThenNext {
            wait_ms: retry.delay_ms,
            next: MountRetry {
                attempt: retry.attempt + 1,
                delay_ms: double_ms(retry.delay_ms),
            },
        }
    }
}

/// A run goes on only when the artifact's executable exists; otherwise it
/// fails inside the executor.
pub fn require_artifact(exists: bool) -> (r: Result<(), RunError>)
    ensures
        exists ==> r is Ok,
        !exists ==> (r matches Err(RunError::Internal { msg }) && msg@ == "Artifact not found"@),
{
    if exists {
        Ok(())
    } else {
        proof {
            reveal_strlit("Artifact not found");
        }
        Err(RunError::Internal { msg: String::from_str("Artifact not found") })
    }
}

/// The message of a failed compilation: the journal, then what the
/// compilation wrote to stdout and stderr.
pub open spec fn failure_message(journal: Seq<char>, stdout: Seq<char>, stderr: Seq<char>) -> Seq<char> {
    "Journal: "@ + journal + ", stdout: "@ + stdout + ", stderr: "@ + stderr
}

/// The error of a failed compilation: the limit that the crash reason names,
/// or else a failure of the code when the scope had started and an internal
/// failure when it had not.
pub open spec fn compile_failure_of(
    reason: CrashReason,
    journal: Seq<char>,
    stdout: Seq<char>,
    stderr: Seq<char>,
    e: CompileError,
) -> bool {
    match reason {
        CrashReason::OomKiller => e == CompileError::CompilationLimitsExceeded(
            CompilationLimitType::Ram,
        ),
        CrashReason::Timeout => e == CompileError::CompilationLimitsExceeded(
            CompilationLimitType::Time,
        ),
        CrashReason::Other => if text::contains_text(journal, "Started"@) {
            e matches CompileError::CompilationFailed { msg } && msg@ == failure_message(
                journal,
                stdout,
                stderr,
            )
        } else {
            e matches CompileError::Internal { msg } && msg@ == failure_message(
                journal,
                stdout,
                stderr,
            )
        },
    }
}

/// The error of a failed compilation.
pub fn compile_failure(reason: CrashReason, journal: &str, stdout: &str, stderr: &str) -> (r:
    CompileError)
    ensures
        compile_failure_of(reason, journal@, stdout@, stderr@, r),
{
    match reason {
        CrashReason::OomKiller => CompileError::CompilationLimitsExceeded(
            CompilationLimitType::Ram,
        ),
        CrashReason::Timeout => CompileError::CompilationLimitsExceeded(CompilationLimitType::Time),
        CrashReason::Other => {
            let mut msg = text::join("Journal: ", journal);
            msg.append(", stdout: ");
            msg.append(stdout);
            msg.append(", stderr: ");
            msg.append(stderr);
            if text::text_contains(journal, "Started") {
                CompileError::CompilationFailed { msg }
            } else {
                CompileError::Internal { msg }
            }
        },
    }
}

/// A property of a transient cgroup scope.
#[derive(Clone, Copy, Debug, PartialEq, Eq, Structural)]
pub enum CgroupProperty {
    /// `Delegate`
    Delegate(bool),
    /// `PIDs`: the one process put into the scope.
    Pids(u32),
    /// `MemoryMax`
    MemoryMax(u64),
    /// `TasksMax`
    TasksMax(u64),
    /// `MemorySwapMax`
    MemorySwapMax(u64),
}

/// The properties of the scope that holds the process `pid` under the
/// execution limits: delegation, the process, the memory and task limits
/// where there are any, and no swap.
pub open spec fn cgroup_properties_of(pid: i32, limits: ExecutionLimits) -> Seq<CgroupProperty> {
    seq![CgroupProperty::Delegate(true), CgroupProperty::Pids(pid as u32)] + match limits.memory_bytes {
        Some(m) => seq![CgroupProperty::MemoryMax(m)],
        None => Seq::empty(),
    } + match limits.pids_count {
        Some(p) => seq![CgroupProperty::TasksMax(p as u64)],
        None => Seq::empty(),
    } + seq![CgroupProperty::MemorySwapMax(0)]
}

/// The properties of the scope that holds the process `pid`.
pub fn cgroup_properties(pid: i32, limits: &ExecutionLimits) -> (r: Vec<CgroupProperty>)
    ensures
        r@ == cgroup_properties_of(pid, *limits),
{
    let mut r: Vec<CgroupProperty> = Vec::new();
    r.push(CgroupProperty::Delegate(true));
    r.push(CgroupProperty::Pids(pid as u32));
    if let Some(memory_max) = limits.memory_bytes {
        r.push(CgroupProperty::MemoryMax(memory_max));
    }
    if let Some(pids_max) = limits.pids_count {
        r.push(CgroupProperty::TasksMax(pids_max as u64));
    }
    r.push(CgroupProperty::MemorySwapMax(0));
    assert(r@ =~= cgroup_properties_of(pid, *limits));
    r
}

/// The scope's properties impose each execution limit on its own: a memory
/// limit `m` appears as `MemoryMax(m)` exactly when the limits set memory to
/// `m`, and a PIDs limit `p` as `TasksMax(p)` exactly when they set PIDs to
/// `p`, whatever the other limit is; delegation, the process and the ban on
/// swap are always there.
pub proof fn lemma_cgroup_limits_each_apply(pid: i32, limits: ExecutionLimits)
    ensures
        cgroup_properties_of(pid, limits).contains(CgroupProperty::Delegate(true)),
        cgroup_properties_of(pid, limits).contains(CgroupProperty::Pids(pid as u32)),
        cgroup_properties_of(pid, limits).contains(CgroupProperty::MemorySwapMax(0)),
        forall|m: u64|
            #[trigger] cgroup_properties_of(pid, limits).contains(CgroupProperty::MemoryMax(m))
                <==> limits.memory_bytes == Some(m),
        forall|p: u64|
            #[trigger] cgroup_properties_of(pid, limits).contains(CgroupProperty::TasksMax(p))
                <==> (limits.pids_count matches Some(q) && p == q as u64),
{
    let s = cgroup_properties_of(pid, limits);
    let head = seq![CgroupProperty::Delegate(true), CgroupProperty::Pids(pid as u32)];
    let mem: Seq<CgroupProperty> = match limits.memory_bytes {
        Some(m) => seq![CgroupProperty::MemoryMax(m)],
        None => Seq::empty(),
    };
    let tasks: Seq<CgroupProperty> = match limits.pids_count {
        Some(p) => seq![CgroupProperty::TasksMax(p as u64)],
        None => Seq::empty(),
    };
    let tail = seq![CgroupProperty::MemorySwapMax(0)];
    assert(s =~= head + mem + tasks + tail);
    let k = (s.len() - 1) as int;
    assert(s[0] == CgroupProperty::Delegate(true));
    assert(s[1] == CgroupProperty::Pids(pid as u32));
    assert(s[k] == CgroupProperty::MemorySwapMax(0));
    if let Some(m) = limits.memory_bytes {
        assert(s[2] == CgroupProperty::MemoryMax(m));
    }
    if let Some(p) = limits.pids_count {
        assert(s[2 + mem.len() as int] == CgroupProperty::TasksMax(p as u64));
    }
    assert forall|m: u64| #[trigger] s.contains(CgroupProperty::MemoryMax(m)) implies limits.memory_bytes
        == Some(m) by {
        let i = choose|i: int| 0 <= i < s.len() && s[i] == CgroupProperty::MemoryMax(m);
        assert(2 <= i < 2 + mem.len());
    }
    assert forall|p: u64| #[trigger] s.contains(CgroupProperty::TasksMax(p)) implies (
    limits.pids_count matches Some(q) && p == q as u64) by {
        let i = choose|i: int| 0 <= i < s.len() && s[i] == CgroupProperty::TasksMax(p);
        assert(2 + mem.len() <= i < 2 + mem.len() + tasks.len());
    }
}

/// What a finished systemd job means for the scope being started.
#[derive(Clone, Copy, Debug, PartialEq, Eq, Structural)]
pub enum JobOutcome {
    /// The job belongs to another unit.
    Unrelated,
    /// The scope started.
    Done,
    /// The scope failed to start.
    Failed,
}

/// What the end of a job of `unit` with `result` means for `scope_name`.
pub fn job_outcome(unit: &str, scope_name: &str, result: &str) -> (r: JobOutcome)
    ensures
        r == if unit@ != scope_name@ {
            JobOutcome::Unrelated
        } else if result@ == "done"@ {
            JobOutcome::Done
        } else {
            JobOutcome::Failed
        },
{
    if !text::same_text(unit, scope_name) {
        JobOutcome::Unrelated
    } else if text::same_text(result, "done") {
        JobOutcome::Done
    } else {
        JobOutcome::Failed
    }
}

/// `r` reports a run that ended with this status, output, time and memory.
pub open spec fn reports(
    r: RunResult,
    status: i32,
    stdout: String,
    stderr: String,
    execution_time_ms: u64,
    peak_memory_usage_bytes: u64,
) -> bool {
    r == RunResult { status, stdout, stderr, execution_time_ms, peak_memory_usage_bytes }
}

/// `r` is what a run comes to: over the time limit, it exceeded the time;
/// when the program exited, its exit code is the status; ended any other way,
/// which is how the kernel ends a program over its memory, it exceeded the
/// memory.
pub open spec fn run_outcome_of(
    time_limit_exceeded: bool,
    status: SerializableWaitStatus,
    stdout: String,
    stderr: String,
    execution_time_ms: u64,
    peak_memory_usage_bytes: u64,
    r: Result<RunResult, RunError>,
) -> bool {
    if time_limit_exceeded {
        r matches Err(RunError::LimitsExceeded { result, limit_type }) && limit_type
            == TestLimitType::Time && reports(
            result,
            -1i32,
            stdout,
            stderr,
            execution_time_ms,
            peak_memory_usage_bytes,
        )
    } else if status is Exited {
        r matches Ok(result) && reports(
            result,
            status->Exited_1,
            stdout,
            stderr,
            execution_time_ms,
            peak_memory_usage_bytes,
        )
    } else {
        r matches Err(RunError::LimitsExceeded { result, limit_type }) && limit_type
            == TestLimitType::Ram && reports(
            result,
            -1i32,
            stdout,
            stderr,
            execution_time_ms,
            peak_memory_usage_bytes,
        )
    }
}

/// What a run comes to.
pub fn run_outcome(
    time_limit_exceeded: bool,
    status: SerializableWaitStatus,
    stdout: String,
    stderr: String,
    execution_time_ms: u64,
    peak_memory_usage_bytes: u64,
) -> (r: Result<RunResult, RunError>)
    ensures
        run_outcome_of(
            time_limit_exceeded,
            status,
            stdout,
            stderr,
            execution_time_ms,
            peak_memory_usage_bytes,
            r,
        ),
{
    if time_limit_exceeded {
        return Err(
            RunError::LimitsExceeded {
                result: RunResult {
                    status: -1,
                    stdout,
                    stderr,
                    execution_time_ms,
                    peak_memory_usage_bytes,
                },
                limit_type: TestLimitType::Time,
            },
        );
    }
    match status {
        SerializableWaitStatus::Exited(_, code) => Ok(
            RunResult {
                status: code,
                stdout,
                stderr,
                execution_time_ms,
                peak_memory_usage_bytes,
            },
        ),
        _ => Err(
            RunError::LimitsExceeded {
                result: RunResult {
                    status: -1,
                    stdout,
                    stderr,
                    execution_time_ms,
                    peak_memory_usage_bytes,
                },
                limit_type: TestLimitType::Ram,
            },
        ),
    }
}

/// The peak memory in bytes of a process whose maximum resident set was
/// `max_rss_kib` kibibytes.
pub fn peak_memory_bytes(max_rss_kib: i64) -> (r: u64)
    requires
        i64::MIN <= max_rss_kib * 1024 <= i64::MAX,
    ensures
        r == (max_rss_kib * 1024) as u64,
{
    (max_rss_kib * 1024) as u64
}

/// The line that maps the identifier `id` outside a user namespace to root
/// inside it.
pub fn id_map_line(id: u32) -> (r: String)
    ensures
        r@ == "0 "@ + text::decimal(id as nat) + " 1"@,
{
    let amount = text::decimal_text(id as u64);
    let mut r = text::join("0 ", amount.as_str());
    r.append(" 1");
    r
}

/// The options of the overlay mount of the container's root: the read-only
/// root below, the writable layer above and the work directory.
pub fn overlay_options(lower_dir: &str, upper_dir: &str, work_dir: &str) -> (r: String)
    ensures
        r@ == "lowerdir="@ + lower_dir@ + ",upperdir="@ + upper_dir@ + ",workdir="@ + work_dir@
            + ",userxattr"@,
{
    let mut r = text::join("lowerdir=", lower_dir);
    r.append(",upperdir=");
    r.append(upper_dir);
    r.append(",workdir=");
    r.append(work_dir);
    r.append(",userxattr");
    r
}

/// The directory of the overlay layer `part` for the run of the artifact
/// `id`, relative to the executor's directory.
pub fn overlay_dir(id: u128, part: &str) -> (r: String)
    ensures
        r@ == "overlayfs_"@ + ident::uuid_text(id) + "/"@ + part@,
{
    let id_text = ident::id_text(id);
    let mut r = text::join("overlayfs_", id_text.as_str());
    r.append("/");
    r.append(part);
    r
}

} // verus!
