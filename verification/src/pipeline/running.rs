//! Decisions of the running stage of the line-protocol service: the state
//! that a test takes once its run ended.
use vstd::prelude::*;

use crate::domain::{Test, TestData, TestResources, TestState};
use crate::runner::traits::{RunnerError, RunnerResult};

verus! {

/// The resources that a run used.
pub open spec fn resources_of(result: RunnerResult) -> TestResources {
    TestResources {
        execution_time_ms: result.execution_time_ms,
        peak_memory_usage_bytes: result.peak_memory_usage_bytes,
    }
}

/// The resources that a run used.
pub fn resources(result: &RunnerResult) -> (r: TestResources)
    ensures
        r == resources_of(*result),
{
    TestResources {
        execution_time_ms: result.execution_time_ms,
        peak_memory_usage_bytes: result.peak_memory_usage_bytes,
    }
}

/// The state of a test with `test_data` whose run ended with `result`: correct
/// when stdout, stderr and exit status are the expected ones.
pub open spec fn state_after_run(test_data: TestData, result: Result<RunnerResult, RunnerError>) -> TestState {
    match result {
        Ok(res) => {
            if res.stdout@ == test_data.stdout@ && res.stderr@ == test_data.stderr@ && res.status
                == test_data.status {
                TestState::Correct { resources: resources_of(res), status: res.status }
            } else {
                TestState::Wrong {
                    expected_stdout: test_data.stdout,
                    expected_stderr: test_data.stderr,
                    expected_status: test_data.status,
                    actual_status: res.status,
                    resources: resources_of(res),
                }
            }
        },
        Err(RunnerError::Crash { result: res }) => TestState::Crash { resources: resources_of(res) },
        Err(RunnerError::LimitsExceeded { result: res, limit_type }) => TestState::LimitsExceeded {
            limit_type,
            resources: resources_of(res),
        },
        Err(RunnerError::FailedToLaunch { msg }) => TestState::InternalError { message: msg },
    }
}

/// The state of a test with `test_data` whose run ended with `result`.
pub fn test_state_from_result(test_data: &TestData, result: Result<RunnerResult, RunnerError>) -> (r:
    TestState)
    ensures
        r == state_after_run(*test_data, result),
{
    match result {
        Ok(res) => {
            let used = resources(&res);
            if res.stdout == test_data.stdout && res.stderr == test_data.stderr && res.status
                == test_data.status {
                TestState::Correct { resources: used, status: res.status }
            } else {
                TestState::Wrong {
                    expected_stdout: test_data.stdout.clone(),
                    expected_stderr: test_data.stderr.clone(),
                    expected_status: test_data.status,
                    actual_status: res.status,
                    resources: used,
                }
            }
        },
        Err(RunnerError::Crash { result: res }) => TestState::Crash { resources: resources(&res) },
        Err(RunnerError::LimitsExceeded { result: res, limit_type }) => TestState::LimitsExceeded {
            limit_type,
            resources: resources(&res),
        },
        Err(RunnerError::FailedToLaunch { msg }) => TestState::InternalError { message: msg },
    }
}

/// A finished run of the line-protocol service is judged on the fields
/// themselves: `Correct` exactly when stdout, stderr and exit status all
/// equal the expected ones; otherwise `Wrong`, with the expected values beside
/// the status the program actually exited with.
pub proof fn lemma_line_run_judged_on_all_fields(test_data: TestData, result: RunnerResult)
    ensures
        (state_after_run(test_data, Ok(result)) is Correct) <==> (result.stdout@ == test_data.stdout@
            && result.stderr@ == test_data.stderr@ && result.status == test_data.status),
        !(state_after_run(test_data, Ok(result)) is Correct) ==> state_after_run(test_data, Ok(result))
            == (TestState::Wrong {
            expected_stdout: test_data.stdout,
            expected_stderr: test_data.stderr,
            expected_status: test_data.status,
            actual_status: result.status,
            resources: TestResources {
                execution_time_ms: result.execution_time_ms,
                peak_memory_usage_bytes: result.peak_memory_usage_bytes,
            },
        }),
{
}

/// Sets the state of the test at `idx`; its output and the other tests stay
/// as they are.
pub fn set_test_state(tests: &mut Vec<Test>, idx: usize, state: TestState)
    requires
        idx < old(tests)@.len(),
    ensures
        final(tests)@.len() == old(tests)@.len(),
        final(tests)@[idx as int].current_stdout == old(tests)@[idx as int].current_stdout,
        final(tests)@[idx as int].current_stderr == old(tests)@[idx as int].current_stderr,
        final(tests)@[idx as int].state == state,
        forall|j: int| 0 <= j < old(tests)@.len() && j != idx ==> final(tests)@[j] == old(tests)@[j],
{
    let before = tests[idx].clone();
    tests.set(
        idx,
        Test {
            current_stdout: before.current_stdout,
            current_stderr: before.current_stderr,
            state,
        },
    );
}

} // verus!
