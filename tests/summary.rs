use hurl::{get_summary, EntryResult, HurlResult, HurlRun};

fn new_run(success: bool, entries_count: usize) -> HurlRun {
    let dummy_entry = EntryResult {
        entry_index: 0,
        errors: vec![],
        time_in_ms: 0,
        compressed: false,
    };
    HurlRun {
        content: "".to_string(),
        filename: "".to_string(),
        hurl_result: HurlResult {
            entries: vec![dummy_entry; entries_count],
            time_in_ms: 0,
            success,
            cookies: vec![],
        },
    }
}

#[test]
fn create_run_summary() {
    let runs = vec![new_run(true, 10), new_run(true, 20), new_run(true, 4)];
    let duration = 128;
    let summary = get_summary(&runs, duration);
    assert_eq!(
        summary,
        "--------------------------------------------------------------------------------\n\
         Executed files:  3\n\
         Succeeded files: 3 (100.0%)\n\
         Failed files:    0 (0.0%)\n\
         Duration:        128 ms\n"
    );

    let runs = vec![new_run(true, 10), new_run(false, 10), new_run(true, 40)];
    let duration = 200;
    let summary = get_summary(&runs, duration);
    assert_eq!(
        summary,
        "--------------------------------------------------------------------------------\n\
        Executed files:  3\n\
        Succeeded files: 2 (66.7%)\n\
        Failed files:    1 (33.3%)\n\
        Duration:        200 ms\n"
    );
}

#[test]
fn summary_of_empty_batch_has_zero_percentages() {
    let summary = get_summary(&vec![], 0);
    assert_eq!(
        summary,
        "--------------------------------------------------------------------------------\n\
         Executed files:  0\n\
         Succeeded files: 0 (0.0%)\n\
         Failed files:    0 (0.0%)\n\
         Duration:        0 ms\n"
    );
}

#[test]
fn summary_percentages_add_up_to_hundred() {
    // 1 of 8: 12.5% and 87.5%; 1 of 6: 16.7% and 83.3%.
    let mut runs = vec![new_run(true, 1)];
    for _ in 0..7 {
        runs.push(new_run(false, 1));
    }
    let summary = get_summary(&runs, 5);
    assert!(summary.contains("Succeeded files: 1 (12.5%)"));
    assert!(summary.contains("Failed files:    7 (87.5%)"));

    let mut runs = vec![new_run(true, 1)];
    for _ in 0..5 {
        runs.push(new_run(false, 1));
    }
    let summary = get_summary(&runs, 1234567);
    assert!(summary.contains("Executed files:  6\n"));
    assert!(summary.contains("Succeeded files: 1 (16.7%)"));
    assert!(summary.contains("Failed files:    5 (83.3%)"));
    assert!(summary.contains("Duration:        1234567 ms\n"));
}

#[test]
fn summary_rounds_ties_to_even() {
    // 1 of 16 is 6.25%, 15 of 16 is 93.75%.
    let mut runs = vec![new_run(true, 1)];
    for _ in 0..15 {
        runs.push(new_run(false, 1));
    }
    let summary = get_summary(&runs, 1);
    assert!(summary.contains("Succeeded files: 1 (6.2%)"));
    assert!(summary.contains("Failed files:    15 (93.8%)"));
}
