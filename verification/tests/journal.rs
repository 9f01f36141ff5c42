use backend_supervisor::journal::{Journal, Severity};

#[test]
fn journal_hands_out_records_oldest_first_and_then_is_empty() {
    let mut journal = Journal::new();
    journal.info("one".to_string());
    journal.error("two".to_string());
    journal.info("three".to_string());
    let records = journal.drain();
    let seen: Vec<(Severity, &str)> =
        records.iter().map(|record| (record.severity, record.message.as_str())).collect();
    assert_eq!(
        seen,
        vec![(Severity::Info, "one"), (Severity::Error, "two"), (Severity::Info, "three")]
    );
    assert!(journal.drain().is_empty());
}
