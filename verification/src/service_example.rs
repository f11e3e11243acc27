//! How the testing workflow of the examples judges a test case: the program
//! must exit with status 0 and print the expected output, surrounding white
//! space aside.
use vstd::prelude::*;

use crate::domain::TestData;
use crate::runner::traits::{RunnerError, RunnerResult};
use crate::text;

verus! {

/// The case with the expected data `expected` passes with the run `result`.
pub open spec fn passes(expected: TestData, result: Result<RunnerResult, RunnerError>) -> bool {
    &&& result is Ok
    &&& result->Ok_0.status == 0
    &&& text::trimmed(result->Ok_0.stdout@) == text::trimmed(expected.stdout@)
}

/// Whether the case with the expected data `expected` passes with the run
/// `result`.
pub fn case_passes(expected: &TestData, result: &Result<RunnerResult, RunnerError>) -> (r: bool)
    ensures
        r == passes(*expected, *result),
{
    match result {
        Ok(res) => {
            if res.status != 0 {
                false
            } else {
                let actual = text::trim(res.stdout.as_str());
                let wanted = text::trim(expected.stdout.as_str());
                text::same_text(actual, wanted)
            }
        },
        Err(_) => false,
    }
}

/// The number of the first `n` cases that pass with their runs.
pub open spec fn passed_count(
    cases: Seq<TestData>,
    results: Seq<Result<RunnerResult, RunnerError>>,
    n: int,
) -> nat
    decreases n,
{
    if n <= 0 {
        0
    } else {
        passed_count(cases, results, n - 1) + if passes(cases[n - 1], results[n - 1]) {
            1nat
        } else {
            0nat
        }
    }
}

/// The number of cases that pass with their runs, the `i`-th run belonging
/// to the `i`-th case.
pub fn count_passed(cases: &Vec<TestData>, results: &Vec<Result<RunnerResult, RunnerError>>) -> (r:
    usize)
    requires
        cases@.len() == results@.len(),
    ensures
        r == passed_count(cases@, results@, cases@.len() as int),
        r <= cases@.len(),
{
    let n = cases.len();
    let mut passed: usize = 0;
    let mut i: usize = 0;
    while i < n
        invariant
            n == cases@.len(),
            n == results@.len(),
            i <= n,
            passed == passed_count(cases@, results@, i as int),
            passed <= i,
        decreases n - i,
    {
        if case_passes(&cases[i], &results[i]) {
            passed = passed + 1;
        }
        i = i + 1;
    }
    passed
}

} // verus!
