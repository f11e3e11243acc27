use coderunner::domain::{CompilationLimitType, CompilationLimits, ExecutionLimits, TestLimitType};
use coderunner::engine::traits::executor::{CompileError, RunError, RunResult};
use coderunner::native::executor::{
    after_mount, double_ms, first_mount, may_mount, require_artifact, MountRetry, MountStep,
    after_poll, artifact_file_name, cgroup_properties, compile_failure, compile_scope_name,
    compiler_command, container_scope_name, crash_reason_in_logs, first_poll, id_map_line,
    job_outcome, journal_unit, may_poll, overlay_dir, overlay_options, peak_memory_bytes,
    run_outcome, source_file_name, systemd_run_args, CgroupProperty, CrashReason, JobOutcome,
    JournalPoll, SerializableWaitStatus,
};

const ID: u128 = 0x0123_4567_89ab_4def_8123_4567_89ab_cdef;

#[test]
fn names_of_scopes_and_files() {
    assert_eq!(compile_scope_name(ID), "coderunner-compile-01234567-89ab-4def-8123-456789abcdef");
    assert_eq!(container_scope_name(ID), "container-01234567-89ab-4def-8123-456789abcdef.scope");
    assert_eq!(artifact_file_name(ID), "01234567-89ab-4def-8123-456789abcdef.out");
    assert_eq!(source_file_name(ID), "01234567-89ab-4def-8123-456789abcdef.cpp");
    assert_eq!(journal_unit("s"), "s.scope");
    assert_eq!(overlay_dir(ID, "upper"), "overlayfs_01234567-89ab-4def-8123-456789abcdef/upper");
}

#[test]
fn compile_command_and_systemd_arguments() {
    let cmd = compiler_command("/usr/bin/g++", "/d/a.out", "/d/a.cpp", true);
    assert_eq!(cmd, vec!["/usr/bin/g++", "-o", "/d/a.out", "/d/a.cpp", "-static"]);
    let cmd = compiler_command("g++", "a", "b", false);
    assert_eq!(cmd, vec!["g++", "-o", "a", "b"]);
    let limits = CompilationLimits { time_ms: Some(1500), memory_bytes: Some(268435456), executable_size_bytes: None };
    let args = systemd_run_args("scope", &limits, &cmd);
    assert_eq!(
        args,
        vec![
            "--user", "--scope", "-u", "scope", "-p", "MemorySwapMax=0", "-p", "MemoryMax=268435456",
            "-p", "RuntimeMaxSec=1500ms", "--", "g++", "-o", "a", "b"
        ]
    );
    let args = systemd_run_args("scope", &CompilationLimits::no_limits(), &vec![]);
    assert_eq!(args, vec!["--user", "--scope", "-u", "scope", "--"]);
}

#[test]
fn journal_tells_the_crash_reason() {
    assert_eq!(crash_reason_in_logs("x: Failed with result 'timeout'.\n"), Some(CrashReason::Timeout));
    assert_eq!(crash_reason_in_logs("Failed with result 'oom-kill'."), Some(CrashReason::OomKiller));
    assert_eq!(
        crash_reason_in_logs("Failed with result 'oom-kill' then Failed with result 'timeout'"),
        Some(CrashReason::Timeout)
    );
    assert_eq!(crash_reason_in_logs("Started scope"), None);
    assert_eq!(crash_reason_in_logs(""), None);
}

#[test]
fn journal_polling_doubles_the_wait() {
    let p = first_poll(10);
    assert_eq!(p, JournalPoll { attempt: 1, delay_ms: 10 });
    assert!(may_poll(&p, 8));
    assert!(!may_poll(&p, 1));
    let next = after_poll(p, "nothing yet").unwrap_err();
    assert_eq!(next, JournalPoll { attempt: 2, delay_ms: 20 });
    assert_eq!(after_poll(next, "Failed with result 'timeout'"), Ok(CrashReason::Timeout));
    assert!(!may_poll(&JournalPoll { attempt: 8, delay_ms: 1 }, 8));
    assert!(may_poll(&JournalPoll { attempt: 7, delay_ms: 1 }, 8));
}

#[test]
fn compile_failures() {
    assert_eq!(
        compile_failure(CrashReason::OomKiller, "", "", ""),
        CompileError::CompilationLimitsExceeded(CompilationLimitType::Ram)
    );
    assert_eq!(
        compile_failure(CrashReason::Timeout, "", "", ""),
        CompileError::CompilationLimitsExceeded(CompilationLimitType::Time)
    );
    assert_eq!(
        compile_failure(CrashReason::Other, "Started x", "o", "e"),
        CompileError::CompilationFailed { msg: "Journal: Started x, stdout: o, stderr: e".to_string() }
    );
    assert_eq!(
        compile_failure(CrashReason::Other, "nothing", "", "boom"),
        CompileError::Internal { msg: "Journal: nothing, stdout: , stderr: boom".to_string() }
    );
}

#[test]
fn cgroup_scope_properties() {
    let limits = ExecutionLimits { time_ms: None, memory_bytes: Some(1024), pids_count: Some(3), stdout_size_bytes: None, stderr_size_bytes: None };
    assert_eq!(
        cgroup_properties(42, &limits),
        vec![
            CgroupProperty::Delegate(true),
            CgroupProperty::Pids(42),
            CgroupProperty::MemoryMax(1024),
            CgroupProperty::TasksMax(3),
            CgroupProperty::MemorySwapMax(0)
        ]
    );
    assert_eq!(
        cgroup_properties(7, &ExecutionLimits::no_limits()),
        vec![CgroupProperty::Delegate(true), CgroupProperty::Pids(7), CgroupProperty::MemorySwapMax(0)]
    );
}

#[test]
fn jobs_of_other_units_are_skipped() {
    assert_eq!(job_outcome("a.scope", "b.scope", "done"), JobOutcome::Unrelated);
    assert_eq!(job_outcome("a.scope", "a.scope", "done"), JobOutcome::Done);
    assert_eq!(job_outcome("a.scope", "a.scope", "failed"), JobOutcome::Failed);
}

fn run(status: i32) -> RunResult {
    RunResult { status, stdout: "o".to_string(), stderr: "e".to_string(), execution_time_ms: 9, peak_memory_usage_bytes: 8 }
}

#[test]
fn run_outcomes() {
    let exited = SerializableWaitStatus::Exited(100, 3);
    assert_eq!(run_outcome(false, exited, "o".to_string(), "e".to_string(), 9, 8), Ok(run(3)));
    assert_eq!(
        run_outcome(true, exited, "o".to_string(), "e".to_string(), 9, 8),
        Err(RunError::LimitsExceeded { result: run(-1), limit_type: TestLimitType::Time })
    );
    let killed = SerializableWaitStatus::Signaled(100, 9, false);
    assert_eq!(
        run_outcome(false, killed, "o".to_string(), "e".to_string(), 9, 8),
        Err(RunError::LimitsExceeded { result: run(-1), limit_type: TestLimitType::Ram })
    );
}

#[test]
fn small_pieces() {
    assert_eq!(peak_memory_bytes(64), 65536);
    assert_eq!(id_map_line(1000), "0 1000 1");
    assert_eq!(id_map_line(0), "0 0 1");
    assert_eq!(
        overlay_options("/root", "/u", "/w"),
        "lowerdir=/root,upperdir=/u,workdir=/w,userxattr"
    );
    assert_eq!(CompileError::from("x".to_string()), CompileError::Internal { msg: "x".to_string() });
    assert_eq!(RunError::from("y".to_string()), RunError::Internal { msg: "y".to_string() });
}

#[test]
fn journal_waits_double_up_to_the_largest() {
    assert_eq!(double_ms(100), 200);
    assert_eq!(double_ms(u64::MAX / 2), u64::MAX - 1);
    assert_eq!(double_ms(u64::MAX / 2 + 1), u64::MAX);
    let next = after_poll(JournalPoll { attempt: 3, delay_ms: u64::MAX }, "").unwrap_err();
    assert_eq!(next, JournalPoll { attempt: 4, delay_ms: u64::MAX });
}

#[test]
fn overlay_mount_retries() {
    let r = first_mount();
    assert_eq!(r, MountRetry { attempt: 1, delay_ms: 100 });
    assert!(may_mount(&r));
    assert_eq!(
        after_mount(r, false),
        MountStep::WaitThenNext { wait_ms: 100, next: MountRetry { attempt: 2, delay_ms: 200 } }
    );
    assert_eq!(after_mount(r, true), MountStep::Next(MountRetry { attempt: 2, delay_ms: 100 }));
    let last = MountRetry { attempt: 5, delay_ms: 1600 };
    assert_eq!(after_mount(last, false), MountStep::GiveUp);
    assert_eq!(after_mount(last, true), MountStep::Next(MountRetry { attempt: 6, delay_ms: 1600 }));
    assert!(!may_mount(&MountRetry { attempt: 6, delay_ms: 1600 }));
    // Five failures in a row: four waits of 100, 200, 400 and 800 ms, then giving up.
    let mut retry = first_mount();
    let mut waits = Vec::new();
    let mut gave_up = false;
    while may_mount(&retry) {
        match after_mount(retry, false) {
            MountStep::Next(next) => retry = next,
            MountStep::WaitThenNext { wait_ms, next } => {
                waits.push(wait_ms);
                retry = next;
            }
            MountStep::GiveUp => {
                gave_up = true;
                break;
            }
        }
    }
    assert_eq!(waits, vec![100, 200, 400, 800]);
    assert!(gave_up);
}

#[test]
fn runs_need_their_artifact() {
    assert_eq!(require_artifact(true), Ok(()));
    assert_eq!(require_artifact(false), Err(RunError::Internal { msg: "Artifact not found".to_string() }));
}
