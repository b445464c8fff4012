//! Classification of runs and the exit code of a batch.
use vstd::prelude::*;
use crate::outcome::{entry_errors, errors_have_runner, has_error, has_runner_error, HurlResult, HurlRun, RunError};

verus! {

pub const EXIT_OK: i32 = 0;
pub const EXIT_ERROR_COMMANDLINE: i32 = 1;
pub const EXIT_ERROR_PARSING: i32 = 2;
pub const EXIT_ERROR_RUNTIME: i32 = 3;
pub const EXIT_ERROR_ASSERT: i32 = 4;
pub const EXIT_ERROR_UNDEFINED: i32 = 127;

/// How bad a run went, from best to worst.
#[derive(PartialEq, Eq, Structural, Clone, Copy, Debug)]
pub enum Severity {
    Success,
    AssertFailure,
    RunnerFailure,
}

/// The severity that one run contributes to its batch.
pub open spec fn run_severity(r: HurlResult) -> Severity {
    if !has_error(r) {
        Severity::Success
    } else if !has_runner_error(r) {
        Severity::AssertFailure
    } else {
        Severity::RunnerFailure
    }
}

/// Some run of the batch holds a runner error.
pub open spec fn batch_has_runner_error(runs: Seq<HurlRun>) -> bool {
    exists|k: int| 0 <= k < runs.len() && has_runner_error(#[trigger] runs[k].hurl_result)
}

/// Some run of the batch holds an error of any kind.
pub open spec fn batch_has_error(runs: Seq<HurlRun>) -> bool {
    exists|k: int| 0 <= k < runs.len() && has_error(#[trigger] runs[k].hurl_result)
}

/// The exit code of a batch: the worst severity over all its runs.
pub open spec fn batch_exit_code(runs: Seq<HurlRun>) -> i32 {
    if batch_has_runner_error(runs) {
        EXIT_ERROR_RUNTIME
    } else if batch_has_error(runs) {
        EXIT_ERROR_ASSERT
    } else {
        EXIT_OK
    }
}

impl Severity {
    /// The process exit code of a batch whose worst severity is `self`.
    pub fn code(self) -> (r: i32)
        ensures
            r == (match self {
                Severity::Success => EXIT_OK,
                Severity::AssertFailure => EXIT_ERROR_ASSERT,
                Severity::RunnerFailure => EXIT_ERROR_RUNTIME,
            }),
    {
        match self {
            Severity::Success => EXIT_OK,
            Severity::AssertFailure => EXIT_ERROR_ASSERT,
            Severity::RunnerFailure => EXIT_ERROR_RUNTIME,
        }
    }
}

/// Tells whether some error of the list is not an assertion error.
pub fn any_runner_error(errors: &Vec<RunError>) -> (b: bool)
    ensures
        b == errors_have_runner(errors@),
{
    let mut j: usize = 0;
    while j < errors.len()
        invariant
            0 <= j <= errors@.len(),
            forall|c: int| 0 <= c < j ==> (#[trigger] errors@[c]).assert,
        decreases errors@.len() - j,
    {
        if !errors[j].assert {
            return true;
        }
        j += 1;
    }
    false
}

/// Classifies one run by the errors of all its entries.
pub fn severity(r: &HurlResult) -> (s: Severity)
    ensures
        s == run_severity(*r),
{
    let mut any: bool = false;
    let mut runner: bool = false;
    let mut i: usize = 0;
    while i < r.entries.len()
        invariant
            0 <= i <= r.entries@.len(),
            any == exists|a: int| 0 <= a < i && (#[trigger] entry_errors(*r, a)).len() > 0,
            runner == exists|a: int| 0 <= a < i && errors_have_runner(#[trigger] entry_errors(*r, a)),
        decreases r.entries@.len() - i,
    {
        let errors = &r.entries[i].errors;
        assert(errors@ == entry_errors(*r, i as int));
        if errors.len() > 0 {
            any = true;
        }
        if any_runner_error(errors) {
            runner = true;
        }
        i += 1;
    }
    if !any {
        Severity::Success
    } else if !runner {
        Severity::AssertFailure
    } else {
        Severity::RunnerFailure
    }
}

/// Returns the exit code of a batch of runs: a runner error anywhere gives the
/// runtime code, else an assertion error anywhere gives the assertion code,
/// else the batch succeeded.
pub fn exit_code(runs: &Vec<HurlRun>) -> (code: i32)
    ensures
        code == batch_exit_code(runs@),
        batch_has_runner_error(runs@) ==> code == EXIT_ERROR_RUNTIME,
        !batch_has_runner_error(runs@) && batch_has_error(runs@) ==> code == EXIT_ERROR_ASSERT,
        !batch_has_error(runs@) ==> code == EXIT_OK,
{
    let mut count_errors_runner: usize = 0;
    let mut count_errors_assert: usize = 0;
    let mut k: usize = 0;
    while k < runs.len()
        invariant
            0 <= k <= runs@.len(),
            count_errors_runner <= k,
            count_errors_assert <= k,
            (count_errors_runner > 0) == exists|m: int|
                0 <= m < k && has_runner_error(#[trigger] runs@[m].hurl_result),
            (count_errors_runner > 0 || count_errors_assert > 0) == exists|m: int|
                0 <= m < k && has_error(#[trigger] runs@[m].hurl_result),
        decreases runs@.len() - k,
    {
        let s = severity(&runs[k].hurl_result);
        match s {
            Severity::Success => {},
            Severity::AssertFailure => {
                count_errors_assert += 1;
            },
            Severity::RunnerFailure => {
                count_errors_runner += 1;
            },
        }
        k += 1;
    }
    if count_errors_runner > 0 {
        Severity::RunnerFailure.code()
    } else if count_errors_assert > 0 {
        Severity::AssertFailure.code()
    } else {
        Severity::Success.code()
    }
}

} // verus!

verus! {

/// An error raised while preparing an output of the batch.
#[derive(Clone, Debug)]
pub struct CliError {
    pub message: String,
}

/// A request to end the process: a message for the error stream (none when
/// empty) and the exit code.
#[derive(Clone, Debug)]
pub struct Exit {
    pub code: i32,
    pub message: String,
}

/// Returns the request to print `message` and end the process with `code`.
pub fn exit_with_error(message: &str, code: i32) -> (e: Exit)
    ensures
        e.code == code,
        e.message@ == message@,
{
    Exit { code, message: String::from_str(message) }
}

/// Keeps the value of a successful `result`; turns an error into the request
/// to end the process with `code` and the error's message.
pub fn unwrap_or_exit<T>(result: Result<T, CliError>, code: i32) -> (r: Result<T, Exit>)
    ensures
        result is Ok <==> r is Ok,
        result is Ok ==> r->Ok_0 == result->Ok_0,
        result is Err ==> r->Err_0.code == code && r->Err_0.message@ == result->Err_0.message@,
{
    match result {
        Ok(v) => Ok(v),
        Err(e) => Err(Exit { code, message: e.message }),
    }
}

} // verus!
