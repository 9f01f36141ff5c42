use backend_supervisor::journal::{LogRecord, Severity};
use backend_supervisor::locator::{BackendLocator, LocateStep};
use std::collections::HashSet;

fn paths(items: &[&str]) -> Vec<String> {
    items.iter().map(|item| item.to_string()).collect()
}

fn files(items: &[&str]) -> HashSet<String> {
    items.iter().map(|item| item.to_string()).collect()
}

/// Runs a locator to its end against a set of existing files; gives the last
/// step, the probes made and the records written.
fn search(candidates: &[&str], existing: &HashSet<String>) -> (LocateStep, Vec<String>, Vec<LogRecord>) {
    let mut locator = BackendLocator::new(paths(candidates));
    let mut probes: Vec<String> = Vec::new();
    let mut records: Vec<LogRecord> = Vec::new();
    loop {
        records.extend(locator.drain_journal());
        match locator.next_step() {
            LocateStep::Probe(path) => {
                let exists = existing.contains(&path);
                probes.push(path);
                locator.record(exists);
            }
            last => return (last, probes, records),
        }
    }
}

fn messages(records: &[LogRecord]) -> Vec<String> {
    records.iter().map(|record| record.message.clone()).collect()
}

#[test]
fn locator_returns_the_first_candidate_with_a_marker() {
    let existing = files(&["/c/main.py", "/d/start_backend.py"]);
    let (last, _, _) = search(&["/a", "/b", "/c", "/d"], &existing);
    assert!(matches!(last, LocateStep::Found(dir) if dir == "/c"));
}

#[test]
fn locator_accepts_either_marker() {
    let existing = files(&["/b/start_backend.py"]);
    let (last, probes, _) = search(&["/a", "/b"], &existing);
    assert!(matches!(last, LocateStep::Found(dir) if dir == "/b"));
    assert_eq!(
        probes,
        vec!["/a/main.py", "/a/start_backend.py", "/b/main.py", "/b/start_backend.py"]
    );
}

#[test]
fn locator_stops_probing_at_the_first_hit() {
    let existing = files(&["/a/main.py", "/a/start_backend.py", "/b/main.py"]);
    let (last, probes, _) = search(&["/a", "/b"], &existing);
    assert!(matches!(last, LocateStep::Found(dir) if dir == "/a"));
    assert_eq!(probes, vec!["/a/main.py"]);
}

#[test]
fn locator_ignores_markers_that_are_not_directly_inside() {
    let existing = files(&["/a/sub/main.py", "/amain.py", "/a/main.pyc"]);
    let (last, _, _) = search(&["/a"], &existing);
    assert!(matches!(last, LocateStep::NotFound(_)));
}

#[test]
fn locator_reports_the_winning_path() {
    let existing = files(&["/b/main.py"]);
    let (_, _, records) = search(&["/a", "/b"], &existing);
    assert_eq!(messages(&records), vec!["Found backend at: /b"]);
    assert_eq!(records[0].severity, Severity::Info);
}

#[test]
fn locator_without_any_marker_lists_every_candidate_once_in_order() {
    let (last, probes, records) = search(&["/a", "rel/b", "/c"], &files(&[]));
    match last {
        LocateStep::NotFound(searched) => assert_eq!(searched, vec!["/a", "rel/b", "/c"]),
        other => panic!("unexpected step {:?}", other),
    }
    assert_eq!(probes.len(), 6);
    assert_eq!(
        messages(&records),
        vec![
            "Backend directory not found! Searched paths:",
            "  - /a",
            "  - rel/b",
            "  - /c",
        ]
    );
    assert!(records.iter().all(|record| record.severity == Severity::Error));
}

#[test]
fn locator_with_duplicate_candidates_lists_them_as_given() {
    let (_, _, records) = search(&["/a", "/a"], &files(&[]));
    assert_eq!(
        messages(&records),
        vec!["Backend directory not found! Searched paths:", "  - /a", "  - /a"]
    );
}

#[test]
fn locator_without_candidates_has_failed_at_once() {
    let (last, probes, records) = search(&[], &files(&["/a/main.py"]));
    assert!(matches!(last, LocateStep::NotFound(searched) if searched.is_empty()));
    assert!(probes.is_empty());
    assert_eq!(messages(&records), vec!["Backend directory not found! Searched paths:"]);
}

#[test]
fn finished_locator_ignores_further_answers() {
    let mut locator = BackendLocator::new(paths(&["/a", "/b"]));
    locator.record(true);
    assert!(matches!(locator.next_step(), LocateStep::Found(dir) if dir == "/a"));
    locator.record(false);
    locator.record(true);
    assert!(matches!(locator.next_step(), LocateStep::Found(dir) if dir == "/a"));
    assert_eq!(locator.drain_journal().len(), 1);
    assert_eq!(locator.drain_journal().len(), 0);
}

#[test]
fn locator_probes_relative_candidates_relatively() {
    let mut locator = BackendLocator::new(paths(&["src-tauri/backend"]));
    assert!(matches!(locator.next_step(), LocateStep::Probe(path) if path == "src-tauri/backend/main.py"));
    locator.record(false);
    assert!(
        matches!(locator.next_step(), LocateStep::Probe(path) if path == "src-tauri/backend/start_backend.py")
    );
}
