use hurl::{Batch, CliError, HurlResult, SourceEvent, Step};

fn result(success: bool) -> HurlResult {
    HurlResult { entries: vec![], time_in_ms: 1, success, cookies: vec![] }
}

fn names(v: &[&str]) -> Vec<String> {
    v.iter().map(|s| s.to_string()).collect()
}

#[test]
fn batch_keeps_one_run_per_file_in_order() {
    let mut batch = Batch::new(names(&["a.hurl", "b.hurl", "a.hurl"]));
    let mut contents = vec![];
    while let Some(f) = batch.current().cloned() {
        assert!(batch.check_current(true).is_ok());
        let content = format!("content of {f} #{}", contents.len());
        contents.push(content.clone());
        let step = batch.record(SourceEvent::Completed(content, result(true)));
        let expected_done = batch.runs.len() == 3;
        assert_eq!(matches!(step, Step::Finished), expected_done);
        assert_eq!(matches!(step, Step::Next), !expected_done);
    }
    let runs = batch.finish();
    let files: Vec<&str> = runs.iter().map(|r| r.filename.as_str()).collect();
    assert_eq!(files, vec!["a.hurl", "b.hurl", "a.hurl"]);
    let got: Vec<&str> = runs.iter().map(|r| r.content.as_str()).collect();
    assert_eq!(got, contents.iter().map(|s| s.as_str()).collect::<Vec<_>>());
}

#[test]
fn absent_file_stops_batch_even_after_successes() {
    let mut batch = Batch::new(names(&["a.hurl", "missing.hurl"]));
    assert!(matches!(batch.record(SourceEvent::Completed("GET x".to_string(), result(true))), Step::Next));
    assert_eq!(batch.current().unwrap(), "missing.hurl");
    let e = batch.check_current(false).unwrap_err();
    assert_eq!(e.code, 2);
    assert_eq!(e.message, "hurl: cannot access 'missing.hurl': No such file or directory");
}

#[test]
fn stdin_is_never_absent() {
    let batch = Batch::new(names(&["-"]));
    assert!(batch.check_current(false).is_ok());
}

#[test]
fn unreadable_or_unparsable_file_stops_batch() {
    let mut batch = Batch::new(names(&["a.hurl", "b.hurl"]));
    let e = CliError { message: "permission denied".to_string() };
    match batch.record(SourceEvent::ReadFailed(e)) {
        Step::Stop(x) => assert_eq!((x.code, x.message.as_str()), (2, "permission denied")),
        _ => panic!("a read failure ends the batch"),
    }
    match batch.record(SourceEvent::ParseFailed) {
        Step::Stop(x) => assert_eq!((x.code, x.message.as_str()), (2, "")),
        _ => panic!("a parse failure ends the batch"),
    }
    assert!(batch.runs.is_empty());
}

#[test]
fn empty_batch_is_done_at_once() {
    let batch = Batch::new(vec![]);
    assert!(batch.current().is_none());
    assert!(batch.finish().is_empty());
}
