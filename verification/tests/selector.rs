use backend_supervisor::journal::{LogRecord, Severity};
use backend_supervisor::selector::{Attempt, LaunchOutcome, LaunchStep, RuntimeSelector};
use std::collections::{HashMap, HashSet};

/// A world for a launch: the files that exist and, for each interpreter, the
/// handle that a spawn gives; an interpreter without a handle is refused.
struct World {
    files: HashSet<String>,
    interpreters: HashMap<String, u32>,
}

fn world(files: &[&str], interpreters: &[(&str, u32)]) -> World {
    World {
        files: files.iter().map(|item| item.to_string()).collect(),
        interpreters: interpreters.iter().map(|(name, handle)| (name.to_string(), *handle)).collect(),
    }
}

struct Run {
    outcome: Option<LaunchOutcome<u32>>,
    checks: Vec<String>,
    spawns: Vec<(String, String, String)>,
    records: Vec<LogRecord>,
}

fn launch(dir: &str, world: &World) -> Run {
    let mut selector: RuntimeSelector<u32> = RuntimeSelector::new(dir.to_string());
    let mut checks: Vec<String> = Vec::new();
    let mut spawns: Vec<(String, String, String)> = Vec::new();
    let mut records: Vec<LogRecord> = Vec::new();
    loop {
        records.extend(selector.drain_journal());
        match selector.next_step() {
            LaunchStep::CheckFile(path) => {
                let exists = world.files.contains(&path);
                checks.push(path);
                selector.file_checked(exists);
            }
            LaunchStep::Spawn { interpreter, script, dir, capture_output } => {
                assert!(capture_output);
                let handle = world.interpreters.get(&interpreter).copied();
                let cause = format!("{} is not installed", interpreter);
                spawns.push((interpreter, script, dir));
                match handle {
                    Some(handle) => selector.spawned(handle),
                    None => selector.spawn_failed(cause),
                }
            }
            LaunchStep::Started | LaunchStep::Failed => break,
        }
    }
    Run { outcome: selector.into_outcome(), checks, spawns, records }
}

fn messages(records: &[LogRecord]) -> Vec<String> {
    records.iter().map(|record| record.message.clone()).collect()
}

fn pairs(attempts: &[Attempt]) -> Vec<(String, String)> {
    attempts.iter().map(|a| (a.entry_point.clone(), a.interpreter.clone())).collect()
}

fn owned(items: &[(&str, &str)]) -> Vec<(String, String)> {
    items.iter().map(|(a, b)| (a.to_string(), b.to_string())).collect()
}

#[test]
fn launch_prefers_the_startup_script_and_the_first_interpreter() {
    let world = world(
        &["/srv/backend/start_backend.py", "/srv/backend/main.py"],
        &[("python3", 7), ("python", 8)],
    );
    let run = launch("/srv/backend", &world);
    assert!(matches!(run.outcome, Some(LaunchOutcome::Started(7))));
    assert_eq!(run.checks, vec!["/srv/backend/start_backend.py"]);
    assert_eq!(
        run.spawns,
        vec![(
            "python3".to_string(),
            "/srv/backend/start_backend.py".to_string(),
            "/srv/backend".to_string()
        )]
    );
}

#[test]
fn launch_with_only_fallback_entry_point_and_second_interpreter() {
    let world = world(&["/srv/backend/main.py"], &[("python", 42)]);
    let run = launch("/srv/backend", &world);
    assert!(matches!(run.outcome, Some(LaunchOutcome::Started(42))));
    assert_eq!(run.checks, vec!["/srv/backend/start_backend.py", "/srv/backend/main.py"]);
    assert_eq!(
        run.spawns,
        vec![
            ("python3".to_string(), "/srv/backend/main.py".to_string(), "/srv/backend".to_string()),
            ("python".to_string(), "/srv/backend/main.py".to_string(), "/srv/backend".to_string()),
        ]
    );
    assert_eq!(
        messages(&run.records),
        vec![
            "Starting Python server from: /srv/backend",
            "Trying to start main.py with: python3",
            "Failed to start main.py with python3: python3 is not installed",
            "Trying to start main.py with: python",
            "Successfully started Python server: main.py with python",
        ]
    );
}

#[test]
fn started_selector_asks_for_nothing_more() {
    let mut selector: RuntimeSelector<u32> = RuntimeSelector::new("/srv/backend".to_string());
    selector.file_checked(true);
    selector.spawned(1);
    assert!(matches!(selector.next_step(), LaunchStep::Started));
    selector.file_checked(true);
    selector.spawned(2);
    selector.spawn_failed("late".to_string());
    assert!(matches!(selector.next_step(), LaunchStep::Started));
    assert_eq!(selector.drain_journal().len(), 3);
    assert!(matches!(selector.into_outcome(), Some(LaunchOutcome::Started(1))));
}

#[test]
fn launch_without_interpreter_fails_with_every_pair_attempted() {
    let world = world(&["/srv/backend/start_backend.py", "/srv/backend/main.py"], &[]);
    let run = launch("/srv/backend", &world);
    match run.outcome {
        Some(LaunchOutcome::LaunchFailed(attempts)) => {
            assert_eq!(attempts.len(), 2 * 2);
            assert_eq!(
                pairs(&attempts),
                owned(&[
                    ("start_backend.py", "python3"),
                    ("start_backend.py", "python"),
                    ("main.py", "python3"),
                    ("main.py", "python"),
                ])
            );
            assert_eq!(attempts[0].cause, "python3 is not installed");
            assert_eq!(attempts[3].cause, "python is not installed");
        }
        other => panic!("unexpected outcome {:?}", other),
    }
    assert_eq!(run.spawns.len(), 4);
}

#[test]
fn launch_failure_counts_only_entry_points_that_exist() {
    let world = world(&["/srv/backend/main.py"], &[]);
    let run = launch("/srv/backend", &world);
    match run.outcome {
        Some(LaunchOutcome::LaunchFailed(attempts)) => {
            assert_eq!(attempts.len(), 1 * 2);
            assert_eq!(pairs(&attempts), owned(&[("main.py", "python3"), ("main.py", "python")]));
        }
        other => panic!("unexpected outcome {:?}", other),
    }
}

#[test]
fn launch_without_any_entry_point_fails_without_attempts() {
    let world = world(&[], &[("python3", 1)]);
    let run = launch("/srv/backend", &world);
    assert!(matches!(run.outcome, Some(LaunchOutcome::LaunchFailed(ref attempts)) if attempts.is_empty()));
    assert!(run.spawns.is_empty());
    assert_eq!(
        messages(&run.records),
        vec![
            "Starting Python server from: /srv/backend",
            "Failed to start Python backend with any method!",
            "Make sure Python is installed and accessible.",
            "Backend directory: /srv/backend",
            "Required files: main.py or start_backend.py",
        ]
    );
}

#[test]
fn launch_failure_is_logged_with_every_attempt_and_cause() {
    let world = world(&["/srv/backend/start_backend.py"], &[]);
    let run = launch("/srv/backend", &world);
    assert_eq!(
        messages(&run.records),
        vec![
            "Starting Python server from: /srv/backend",
            "Trying to start start_backend.py with: python3",
            "Failed to start start_backend.py with python3: python3 is not installed",
            "Trying to start start_backend.py with: python",
            "Failed to start start_backend.py with python: python is not installed",
            "Failed to start Python backend with any method!",
            "Make sure Python is installed and accessible.",
            "Backend directory: /srv/backend",
            "Required files: main.py or start_backend.py",
        ]
    );
    let severities: Vec<Severity> = run.records.iter().map(|record| record.severity).collect();
    assert_eq!(
        severities,
        vec![
            Severity::Info,
            Severity::Info,
            Severity::Error,
            Severity::Info,
            Severity::Error,
            Severity::Error,
            Severity::Error,
            Severity::Error,
            Severity::Error,
        ]
    );
}

#[test]
fn launch_falls_back_to_main_module_after_the_startup_script_fails() {
    let mut selector: RuntimeSelector<&str> = RuntimeSelector::new("backend".to_string());
    selector.file_checked(true);
    selector.spawn_failed("denied".to_string());
    selector.spawn_failed("denied".to_string());
    assert!(matches!(selector.next_step(), LaunchStep::CheckFile(path) if path == "backend/main.py"));
    selector.file_checked(true);
    assert!(matches!(
        selector.next_step(),
        LaunchStep::Spawn { interpreter, script, dir, capture_output: true }
            if interpreter == "python3" && script == "backend/main.py" && dir == "backend"
    ));
    selector.spawned("child");
    match selector.into_outcome() {
        Some(LaunchOutcome::Started(handle)) => assert_eq!(handle, "child"),
        other => panic!("unexpected outcome {:?}", other),
    }
}

#[test]
fn selector_under_way_has_no_outcome() {
    let selector: RuntimeSelector<u32> = RuntimeSelector::new("/srv/backend".to_string());
    assert!(selector.into_outcome().is_none());
}

#[test]
fn selector_ignores_reports_it_did_not_ask_for() {
    let mut selector: RuntimeSelector<u32> = RuntimeSelector::new("/srv/backend".to_string());
    selector.spawned(9);
    selector.spawn_failed("early".to_string());
    assert!(
        matches!(selector.next_step(), LaunchStep::CheckFile(path) if path == "/srv/backend/start_backend.py")
    );
    selector.file_checked(true);
    selector.file_checked(false);
    assert!(matches!(selector.next_step(), LaunchStep::Spawn { .. }));
}
