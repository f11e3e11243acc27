use std::path::PathBuf;
use std::time::Duration;

use coderunner::compiler::basic::{compile_args, compile_outcome, failure, BasicCompiler, CompilerRun};
use coderunner::compiler::errors::CompilationError;
use coderunner::compiler::stubs::CompilerStub as PlainCompilerStub;
use coderunner::domain::{
    Artifact, ArtifactKind, CompilationLimitType, CompilationLimits, ExecutionLimits, Language,
    TestLimitType,
};
use coderunner::engine::traits::compiler::CompileError;
use coderunner::runner::basic::{
    check_memory, executable_not_found, finish_run, timed_out, BasicRunner,
    REPORTED_PEAK_MEMORY_BYTES,
};
use coderunner::runner::traits::{RunnerError, RunnerResult};
use coderunner::stubs::compiler::CompilerStub;
use coderunner::stubs::runner::RunnerStub;

fn limits(stdout: Option<u64>, stderr: Option<u64>) -> ExecutionLimits {
    ExecutionLimits { time_ms: None, memory_bytes: None, pids_count: None, stdout_size_bytes: stdout, stderr_size_bytes: stderr }
}

fn result(status: i32, stdout: &str, stderr: &str) -> RunnerResult {
    RunnerResult {
        status,
        stdout: stdout.to_string(),
        stderr: stderr.to_string(),
        execution_time_ms: 12,
        peak_memory_usage_bytes: REPORTED_PEAK_MEMORY_BYTES,
    }
}

#[test]
fn finished_runs() {
    let l = limits(Some(5), Some(3));
    assert_eq!(finish_run(Some(0), "ok".to_string(), "".to_string(), 12, &l), Ok(result(0, "ok", "")));
    assert_eq!(
        finish_run(None, "ok".to_string(), "".to_string(), 12, &l),
        Err(RunnerError::Crash { result: result(-1, "ok", "") })
    );
    assert_eq!(finish_run(Some(1), "ok".to_string(), "".to_string(), 12, &l), Ok(result(1, "ok", "")));
    assert_eq!(
        finish_run(Some(0), "1234567".to_string(), "abcdef".to_string(), 12, &l),
        Err(RunnerError::LimitsExceeded { result: result(0, "12345", "abcdef"), limit_type: TestLimitType::StdoutSize })
    );
    assert_eq!(
        finish_run(Some(0), "12".to_string(), "abcdef".to_string(), 12, &l),
        Err(RunnerError::LimitsExceeded { result: result(0, "12", "abc"), limit_type: TestLimitType::StderrSize })
    );
    // Output is cut to at most the limit in bytes, on a character boundary.
    assert_eq!(
        finish_run(Some(0), "ééé".to_string(), "".to_string(), 12, &l),
        Err(RunnerError::LimitsExceeded { result: result(0, "éé", ""), limit_type: TestLimitType::StdoutSize })
    );
    assert_eq!(
        finish_run(Some(0), "ok".to_string(), "日本".to_string(), 12, &l),
        Err(RunnerError::LimitsExceeded { result: result(0, "ok", "日"), limit_type: TestLimitType::StderrSize })
    );
    let over = finish_run(Some(0), "aéééé".to_string(), "".to_string(), 12, &l);
    match over {
        Err(RunnerError::LimitsExceeded { result, .. }) => {
            assert!(result.stdout.len() <= 5);
            assert!("aéééé".starts_with(result.stdout.as_str()));
            assert_eq!(result.stdout, "aéé");
        }
        other => panic!("unexpected {:?}", other),
    }
}

#[test]
fn timeouts_and_missing_executables() {
    assert_eq!(
        timed_out(30),
        RunnerError::LimitsExceeded {
            result: RunnerResult { status: -1, stdout: "".to_string(), stderr: "".to_string(), execution_time_ms: 30, peak_memory_usage_bytes: 0 },
            limit_type: TestLimitType::Time,
        }
    );
    assert_eq!(
        executable_not_found(0x0123_4567_89ab_4def_8123_4567_89ab_cdef),
        RunnerError::FailedToLaunch { msg: "Executable not found for artifact: 01234567-89ab-4def-8123-456789abcdef".to_string() }
    );
}

#[test]
fn memory_sampling() {
    let mut l = limits(None, None);
    assert_eq!(check_memory(Some(5000), &l), (0, false, None));
    l.memory_bytes = Some(1000);
    assert_eq!(check_memory(Some(5000), &l), (5000, true, Some(TestLimitType::Ram)));
    assert_eq!(check_memory(Some(10), &l), (10, false, None));
    assert_eq!(check_memory(None, &l), (0, false, None));
}

#[test]
fn compiler_outcomes() {
    assert_eq!(compile_args("out", "src.cpp"), vec!["-o", "out", "src.cpp", "-std=c++17", "-O2"]);
    assert_eq!(
        compile_outcome(1, CompilerRun::TimedOut, false, "o"),
        Err(CompilationError::CompilationLimitsExceeded(CompilationLimitType::Time))
    );
    assert_eq!(
        compile_outcome(1, CompilerRun::NotStarted { error: "no g++".to_string() }, false, "o"),
        Err(CompilationError::CompilationFailed { msg: "Failed to execute g++: no g++".to_string() })
    );
    assert_eq!(
        compile_outcome(1, CompilerRun::Finished { success: false, stderr: "err".to_string() }, false, "o"),
        Err(CompilationError::CompilationFailed { msg: "Compilation failed:\nerr".to_string() })
    );
    assert_eq!(
        compile_outcome(1, CompilerRun::Finished { success: true, stderr: "".to_string() }, false, "/t/o"),
        Err(CompilationError::CompilationFailed { msg: "Executable file was not created at: /t/o".to_string() })
    );
    assert_eq!(
        compile_outcome(1, CompilerRun::Finished { success: true, stderr: "".to_string() }, true, "o"),
        Ok(Artifact { id: 1, kind: ArtifactKind::Executable })
    );
    assert_eq!(
        failure("Failed to write source code: ", "disk full"),
        CompilationError::CompilationFailed { msg: "Failed to write source code: disk full".to_string() }
    );
    assert_eq!(
        CompilationError::CompilationLimitsExceeded(CompilationLimitType::Ram).message(),
        "Compilation limits exceeded: Ram"
    );
    assert_eq!(
        CompilationError::CompilationFailed { msg: "x".to_string() }.message(),
        "Compilation failed: x"
    );
}

#[test]
fn compiler_and_runner_keep_their_directory() {
    let c = BasicCompiler::with_temp_dir(PathBuf::from("/tmp/c"));
    assert_eq!(c.temp_dir(), &PathBuf::from("/tmp/c"));
    let r = BasicRunner::with_temp_dir(PathBuf::from("/tmp/r"));
    assert_eq!(r.temp_dir(), &PathBuf::from("/tmp/r"));
}

#[test]
fn stubs_answer_with_their_result() {
    let limits = CompilationLimits::no_limits();
    let stub = PlainCompilerStub::new(
        Err(CompilationError::CompilationFailed { msg: "e".to_string() }),
        Duration::from_millis(5),
    );
    assert_eq!(stub.delay(), Duration::from_millis(5));
    assert_eq!(
        stub.compile("code", &Language::GnuCpp, &limits),
        Err(CompilationError::CompilationFailed { msg: "e".to_string() })
    );
    let stub = CompilerStub::new(Ok(()), Duration::from_millis(1));
    let a = stub.compile("code", &Language::GnuCpp, &limits).unwrap();
    assert_eq!(a.kind, ArtifactKind::Executable);
    assert_eq!((a.id >> 76) & 0xf, 4);
    let stub = CompilerStub::new(Err(CompileError::Internal { msg: "i".to_string() }), Duration::from_millis(1));
    assert_eq!(
        stub.compile("code", &Language::GnuCpp, &limits),
        Err(CompileError::Internal { msg: "i".to_string() })
    );
    let runner = RunnerStub::new(Ok(result(0, "a", "b")), Duration::from_millis(2));
    assert_eq!(
        runner.run(&Artifact { id: 1, kind: ArtifactKind::Executable }, "", &ExecutionLimits::no_limits()),
        Ok(result(0, "a", "b"))
    );
    assert_eq!(runner.clone().delay(), Duration::from_millis(2));
}
