//! Orchestration of a batch of HTTP test files: input resolution, the
//! classification of each run, the exit code of the batch and the data of
//! every report written at the end of a batch.
pub mod outcome;
pub mod exit;
pub mod summary;
pub mod cookies;
pub mod input;
pub mod report;
pub mod variables;
pub mod markup;
pub mod batch;

pub use outcome::{Cookie, EntryResult, HurlResult, HurlRun, RunError};
pub use exit::{exit_code, Severity, EXIT_ERROR_ASSERT, EXIT_ERROR_COMMANDLINE, EXIT_ERROR_PARSING, EXIT_ERROR_RUNTIME, EXIT_ERROR_UNDEFINED, EXIT_OK};
pub use summary::{get_summary, lemma_summary_adds_up};
pub use exit::{exit_with_error, unwrap_or_exit, CliError, Exit};
pub use cookies::cookie_file_content;
pub use input::{check_cookie_output, check_source, get_input_files, is_ci, progress_bar};
pub use report::{create_html_report, create_junit_report, html_index, lemma_index_one_page_per_run, HtmlTestcase, JunitTestcase};
pub use variables::{execute, run_variables, state_modifier, Generator, Runner, Value, Variables};
pub use markup::{html_detail_page, html_index_page, junit_xml};
pub use batch::{Batch, SourceEvent, Step};
