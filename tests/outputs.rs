use hurl::{
    check_cookie_output, check_source, cookie_file_content, create_html_report, create_junit_report,
    exit_with_error, get_input_files, html_index, is_ci, progress_bar, unwrap_or_exit,
    CliError, Cookie, EntryResult, HurlResult, HurlRun, RunError,
};

fn cookie(name: &str, http_only: bool) -> Cookie {
    Cookie {
        domain: "localhost".to_string(),
        include_subdomain: "FALSE".to_string(),
        path: "/".to_string(),
        https: "FALSE".to_string(),
        expires: "0".to_string(),
        name: name.to_string(),
        value: "v".to_string(),
        http_only,
    }
}

fn run(filename: &str, errors: Vec<RunError>, cookies: Vec<Cookie>) -> HurlRun {
    let success = errors.is_empty();
    HurlRun {
        content: "GET http://localhost\n".to_string(),
        filename: filename.to_string(),
        hurl_result: HurlResult {
            entries: vec![
                EntryResult { entry_index: 1, errors: vec![], time_in_ms: 2, compressed: false },
                EntryResult { entry_index: 2, errors, time_in_ms: 5, compressed: false },
            ],
            time_in_ms: 7,
            success,
            cookies,
        },
    }
}

#[test]
fn cookie_file_of_single_run() {
    let runs = vec![run("a.hurl", vec![], vec![cookie("id", false), cookie("session", true)])];
    let content = cookie_file_content(&runs).unwrap();
    assert_eq!(
        content,
        "# Netscape HTTP Cookie File\n# This file was generated by Hurl\n\n\
         localhost\tFALSE\t/\tFALSE\t0\tid\tv\n\
         #HttpOnly_localhost\tFALSE\t/\tFALSE\t0\tsession\tv\n"
    );
    let runs = vec![run("a.hurl", vec![], vec![])];
    assert_eq!(
        cookie_file_content(&runs).unwrap(),
        "# Netscape HTTP Cookie File\n# This file was generated by Hurl\n\n"
    );
}

#[test]
fn cookie_file_needs_exactly_one_run() {
    let e = cookie_file_content(&vec![]).unwrap_err();
    assert_eq!(e.message, "Issue fetching results");
    let runs = vec![run("a.hurl", vec![], vec![cookie("id", false)]), run("b.hurl", vec![], vec![])];
    let e = cookie_file_content(&runs).unwrap_err();
    assert_eq!(e.message, "Only save cookies for a unique session");
}

#[test]
fn cookie_output_is_refused_for_several_files() {
    let e = check_cookie_output(true, 2).unwrap_err();
    assert_eq!(e.code, 1);
    assert_eq!(e.message, "Only save cookies for a unique session");
    assert!(check_cookie_output(true, 1).is_ok());
    assert!(check_cookie_output(false, 3).is_ok());
}

#[test]
fn input_files_keep_order_and_repeats() {
    let files = Some(vec!["b.hurl".to_string(), "a.hurl".to_string()]);
    let globs = vec!["c.hurl".to_string(), "a.hurl".to_string()];
    let r = get_input_files(&files, &globs, true).unwrap();
    assert_eq!(r, vec!["b.hurl", "a.hurl", "c.hurl", "a.hurl"]);
    let r = get_input_files(&None, &globs, false).unwrap();
    assert_eq!(r, vec!["c.hurl", "a.hurl"]);
}

#[test]
fn no_input_reads_stdin_when_not_a_terminal() {
    let r = get_input_files(&None, &vec![], false).unwrap();
    assert_eq!(r, vec!["-"]);
    let r = get_input_files(&Some(vec![]), &vec![], false).unwrap();
    assert_eq!(r, vec!["-"]);
}

#[test]
fn no_input_on_terminal_asks_for_usage() {
    let e = get_input_files(&None, &vec![], true).unwrap_err();
    assert_eq!((e.code, e.message.as_str()), (1, ""));
    let e = get_input_files(&Some(vec![]), &vec![], true).unwrap_err();
    assert_eq!(e.code, 1);
}

#[test]
fn missing_source_is_an_access_error() {
    let e = check_source(&"missing.hurl".to_string(), false).unwrap_err();
    assert_eq!(e.code, 2);
    assert_eq!(e.message, "hurl: cannot access 'missing.hurl': No such file or directory");
    assert!(check_source(&"-".to_string(), false).is_ok());
    assert!(check_source(&"present.hurl".to_string(), true).is_ok());
}

#[test]
fn errors_become_exit_requests() {
    let e = exit_with_error("boom", 127);
    assert_eq!((e.code, e.message.as_str()), (127, "boom"));
    let ok: Result<u8, CliError> = Ok(5);
    assert_eq!(unwrap_or_exit(ok, 3).ok(), Some(5));
    let err: Result<u8, CliError> = Err(CliError { message: "disk full".to_string() });
    let e = unwrap_or_exit(err, 127).err().unwrap();
    assert_eq!((e.code, e.message.as_str()), (127, "disk full"));
}

#[test]
fn run_decisions() {
    assert!(is_ci(true, false) && is_ci(false, true) && !is_ci(false, false));
    assert!(progress_bar(true, false, false, true));
    assert!(!progress_bar(true, false, true, true));
    assert!(!progress_bar(false, false, false, true));
    assert!(!progress_bar(true, true, false, true));
    assert!(!progress_bar(true, false, false, false));
}

#[test]
fn junit_testcases_split_failures_and_errors() {
    let errors = vec![
        RunError { assert: true, message: "status 404".to_string() },
        RunError { assert: false, message: "connection refused".to_string() },
        RunError { assert: true, message: "body mismatch".to_string() },
    ];
    let runs = vec![run("a.hurl", vec![], vec![]), run("b.hurl", errors, vec![])];
    let tcs = create_junit_report(&runs);
    assert_eq!(tcs.len(), 2);
    assert_eq!(tcs[0].name, "a.hurl");
    assert!(tcs[0].failures.is_empty() && tcs[0].errors.is_empty());
    assert_eq!(tcs[1].name, "b.hurl");
    assert_eq!(tcs[1].time_in_ms, 7);
    assert_eq!(tcs[1].failures, vec!["status 404", "body mismatch"]);
    assert_eq!(tcs[1].errors, vec!["connection refused"]);
}

#[test]
fn html_index_links_one_page_per_run_in_order() {
    let failing = vec![RunError { assert: true, message: "x".to_string() }];
    let runs = vec![run("a.hurl", vec![], vec![]), run("b.hurl", failing, vec![]), run("a.hurl", vec![], vec![])];
    let tcs = create_html_report(&runs);
    assert_eq!(tcs.len(), 3);
    let names: Vec<&str> = tcs.iter().map(|t| t.filename.as_str()).collect();
    assert_eq!(names, vec!["a.hurl", "b.hurl", "a.hurl"]);
    assert_eq!(tcs.iter().map(|t| t.success).collect::<Vec<_>>(), vec![true, false, true]);
    assert!(tcs.iter().all(|t| t.id.len() == 36));
    assert_ne!(tcs[0].id, tcs[2].id);
    let links = html_index(&tcs);
    assert_eq!(links.len(), 3);
    for (link, tc) in links.iter().zip(tcs.iter()) {
        assert_eq!(*link, format!("store/{}.html", tc.id));
    }
}
