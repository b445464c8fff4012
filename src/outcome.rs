//! What one execution of a test file produced.
use vstd::prelude::*;

verus! {

/// One error raised while running an entry: a failed assertion, or a failure
/// of the run itself (network, protocol, engine).
#[derive(Clone, Debug)]
pub struct RunError {
    pub assert: bool,
    pub message: String,
}

/// The result of running one entry of a file.
#[derive(Clone, Debug)]
pub struct EntryResult {
    pub entry_index: usize,
    pub errors: Vec<RunError>,
    pub time_in_ms: u128,
    pub compressed: bool,
}

/// A cookie kept at the end of a run, in the fields of a Netscape cookie line.
#[derive(Clone, Debug)]
pub struct Cookie {
    pub domain: String,
    pub include_subdomain: String,
    pub path: String,
    pub https: String,
    pub expires: String,
    pub name: String,
    pub value: String,
    pub http_only: bool,
}

/// The structured outcome of running one file.
#[derive(Clone, Debug)]
pub struct HurlResult {
    pub entries: Vec<EntryResult>,
    pub time_in_ms: u128,
    pub success: bool,
    pub cookies: Vec<Cookie>,
}

/// A completed run: the file's content, its name and its outcome.
#[derive(Clone, Debug)]
pub struct HurlRun {
    pub content: String,
    pub filename: String,
    pub hurl_result: HurlResult,
}

/// The errors of entry `i`, as a sequence.
pub open spec fn entry_errors(r: HurlResult, i: int) -> Seq<RunError> {
    r.entries@[i].errors@
}

/// Some entry of the run holds an error of any kind.
pub open spec fn has_error(r: HurlResult) -> bool {
    exists|i: int| 0 <= i < r.entries@.len() && (#[trigger] entry_errors(r, i)).len() > 0
}

/// Some error of the sequence is not an assertion error.
pub open spec fn errors_have_runner(errs: Seq<RunError>) -> bool {
    exists|j: int| 0 <= j < errs.len() && !(#[trigger] errs[j]).assert
}

/// Some entry of the run holds an error that is not an assertion error.
pub open spec fn has_runner_error(r: HurlResult) -> bool {
    exists|i: int| 0 <= i < r.entries@.len() && errors_have_runner(#[trigger] entry_errors(r, i))
}

/// The outcome is coherent: it succeeded exactly when no entry holds an error.
pub open spec fn well_formed(r: HurlResult) -> bool {
    r.success == !has_error(r)
}

} // verus!
