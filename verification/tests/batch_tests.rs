use sheet_fetch::batch::{batch_report, nonempty_lines, split_lines};

#[test]
fn splits_on_newlines_keeping_empty_lines() {
    let r = split_lines("a\nb\n\nc");
    assert_eq!(r, vec!["a", "b", "", "c"]);
}

#[test]
fn empty_input_is_one_empty_line() {
    assert_eq!(split_lines(""), vec![""]);
}

#[test]
fn trailing_newline_yields_a_trailing_empty_line() {
    assert_eq!(split_lines("a\n"), vec!["a", ""]);
}

#[test]
fn blank_lines_are_skipped() {
    let lines = split_lines("u1\n\nu2\n");
    let urls = nonempty_lines(&lines);
    assert_eq!(urls, vec!["u1", "u2"]);
}

#[test]
fn one_failure_never_stops_the_batch() {
    let outcomes = vec![
        ("http://u1".to_string(), None),
        (
            "http://u2".to_string(),
            Some("Failed to get sheet title".to_string()),
        ),
        ("http://u3".to_string(), None),
    ];
    let report = batch_report(outcomes);
    assert_eq!(report.succeeded, 2);
    assert_eq!(
        report.failed,
        vec![(
            "http://u2".to_string(),
            "Failed to get sheet title".to_string()
        )]
    );
    assert_eq!(report.succeeded + report.failed.len(), 3);
    assert!(!report.all_succeeded());
}

#[test]
fn a_clean_batch_reports_full_success() {
    let outcomes = vec![
        ("u1".to_string(), None),
        ("u2".to_string(), None),
    ];
    let report = batch_report(outcomes);
    assert_eq!(report.succeeded, 2);
    assert!(report.all_succeeded());
}

#[test]
fn failures_keep_processing_order() {
    let outcomes = vec![
        ("u1".to_string(), Some("r1".to_string())),
        ("u2".to_string(), None),
        ("u3".to_string(), Some("r3".to_string())),
    ];
    let report = batch_report(outcomes);
    assert_eq!(report.succeeded, 1);
    assert_eq!(
        report.failed,
        vec![
            ("u1".to_string(), "r1".to_string()),
            ("u3".to_string(), "r3".to_string())
        ]
    );
}
