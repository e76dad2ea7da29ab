//! Quiz grading for the code-execution feature that the platform exposes
//! beside the credential service. Running a submission is the caller's
//! collaborator (an external interpreter); grading the collected run
//! outcomes against the expected outputs is done here.

use vstd::prelude::*;

use crate::text::trim_end_of;
use crate::text::trimmed_end;

verus! {

/// A submission to run once against a single input.
pub struct CodeCompileRequest {
    pub code: String,
    pub input: String,
}

/// What one run produced: its output, or the interpreter's error text.
pub struct CodeOutputResponse {
    pub output: Result<String, String>,
}

/// A submission to grade against a list of test cases.
pub struct CodeQuizRequest {
    pub code: String,
    pub testcases: Vec<Testcase>,
}

/// One test case: the input to run with and the output expected of it.
pub struct Testcase {
    pub input: String,
    pub expected_output: String,
}

/// The grade of each test case, in order: whether the run's output matched,
/// or the error the run failed with.
pub struct QuizResponse {
    pub output_match: Vec<Result<bool, String>>,
}

/// Grade one run outcome per test case: a run's output matches when it
/// equals the expected output after trailing whitespace is trimmed; a
/// failed run keeps its error text.
pub fn match_outputs(run_results: &Vec<Result<String, String>>, testcases: &Vec<Testcase>) -> (out:
    Vec<Result<bool, String>>)
    requires
        run_results@.len() == testcases@.len(),
    ensures
        out@.len() == testcases@.len(),
        forall|i: int|
            0 <= i < out@.len() ==> (match #[trigger] run_results@[i] {
                Ok(o) => out@[i] == Ok::<bool, String>(
                    trim_end_of(o@) == testcases@[i].expected_output@,
                ),
                Err(e) => out@[i] == Err::<bool, String>(e),
            }),
{
    let n = testcases.len();
    let mut out: Vec<Result<bool, String>> = Vec::new();
    let mut i: usize = 0;
    while i < n
        invariant
            0 <= i <= n,
            n == testcases@.len(),
            run_results@.len() == testcases@.len(),
            out@.len() == i,
            forall|j: int|
                0 <= j < i ==> (match #[trigger] run_results@[j] {
                    Ok(o) => out@[j] == Ok::<bool, String>(
                        trim_end_of(o@) == testcases@[j].expected_output@,
                    ),
                    Err(e) => out@[j] == Err::<bool, String>(e),
                }),
        decreases n - i,
    {
        match &run_results[i] {
            Ok(o) => {
                let trimmed = trimmed_end(o);
                out.push(Ok(trimmed.eq(&testcases[i].expected_output)));
            },
            Err(e) => {
                out.push(Err(e.clone()));
            },
        }
        i = i + 1;
    }
    out
}

} // verus!
