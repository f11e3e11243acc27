use coderunner::domain::{TestData, TestLimitType};
use coderunner::runner::traits::{RunnerError, RunnerResult};
use coderunner::service_example::{case_passes, count_passed};

fn case(stdin: &str, stdout: &str) -> TestData {
    TestData { stdin: stdin.to_string(), stdout: stdout.to_string(), stderr: "".to_string(), status: 0 }
}

fn ran(status: i32, stdout: &str) -> Result<RunnerResult, RunnerError> {
    Ok(RunnerResult {
        status,
        stdout: stdout.to_string(),
        stderr: "".to_string(),
        execution_time_ms: 1,
        peak_memory_usage_bytes: 1,
    })
}

#[test]
fn a_case_passes_on_matching_trimmed_output_and_status_zero() {
    assert!(case_passes(&case("5 3", "8"), &ran(0, "8\n")));
    assert!(!case_passes(&case("5 3", "8"), &ran(1, "8\n")));
    assert!(!case_passes(&case("5 3", "8"), &ran(0, "9\n")));
    let limits = Err(RunnerError::LimitsExceeded {
        result: RunnerResult { status: 0, stdout: "8".to_string(), stderr: "".to_string(), execution_time_ms: 1, peak_memory_usage_bytes: 1 },
        limit_type: TestLimitType::Time,
    });
    assert!(!case_passes(&case("5 3", "8"), &limits));
}

#[test]
fn passed_cases_are_counted() {
    let cases = vec![case("5 3", "8"), case("10 -2", "8"), case("0 0", "0")];
    let results = vec![ran(0, "8\n"), ran(0, "7\n"), ran(0, " 0 ")];
    assert_eq!(count_passed(&cases, &results), 2);
    assert_eq!(count_passed(&vec![], &vec![]), 0);
}
