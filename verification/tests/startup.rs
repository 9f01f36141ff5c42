use backend_supervisor::journal::LogRecord;
use backend_supervisor::selector::LaunchOutcome;
use backend_supervisor::startup::{BackendStartup, StartupStep};
use std::collections::{HashMap, HashSet};

fn drive(
    mut startup: BackendStartup<u32>,
    files: &HashSet<String>,
    interpreters: &HashMap<String, u32>,
) -> (Option<LaunchOutcome<u32>>, Vec<String>, usize) {
    let mut messages: Vec<String> = Vec::new();
    let mut spawns: usize = 0;
    loop {
        let records: Vec<LogRecord> = startup.drain_journal();
        messages.extend(records.into_iter().map(|record| record.message));
        match startup.next_step() {
            StartupStep::Probe(path) => startup.probed(files.contains(&path)),
            StartupStep::Spawn { interpreter, .. } => {
                spawns += 1;
                match interpreters.get(&interpreter) {
                    Some(handle) => startup.spawned(*handle),
                    None => startup.spawn_failed("No such file or directory".to_string()),
                }
            }
            StartupStep::Finished => break,
        }
    }
    (startup.into_outcome(), messages, spawns)
}

fn set(items: &[&str]) -> HashSet<String> {
    items.iter().map(|item| item.to_string()).collect()
}

fn handles(items: &[(&str, u32)]) -> HashMap<String, u32> {
    items.iter().map(|(name, handle)| (name.to_string(), *handle)).collect()
}

#[test]
fn startup_finds_then_launches() {
    let startup = BackendStartup::begin(&Some("/opt/app/bin/shell".to_string()), &Some("/work".to_string()));
    let files = set(&["/opt/app/backend/main.py"]);
    let (outcome, messages, spawns) = drive(startup, &files, &handles(&[("python3", 5)]));
    assert!(matches!(outcome, Some(LaunchOutcome::Started(5))));
    assert_eq!(spawns, 1);
    assert_eq!(
        messages,
        vec![
            "Found backend at: /opt/app/backend",
            "Starting Python server from: /opt/app/backend",
            "Trying to start main.py with: python3",
            "Successfully started Python server: main.py with python3",
        ]
    );
}

#[test]
fn startup_without_backend_is_not_found_and_spawns_nothing() {
    let startup = BackendStartup::begin(&Some("/opt/app/bin/shell".to_string()), &Some("/work".to_string()));
    let (outcome, messages, spawns) = drive(startup, &set(&[]), &handles(&[("python3", 5)]));
    match outcome {
        Some(LaunchOutcome::NotFound(searched)) => assert_eq!(
            searched,
            vec![
                "/opt/app/bin/backend",
                "/opt/app/backend",
                "/opt/backend",
                "/opt/app/bin/src-tauri/backend",
                "src-tauri/backend",
                "/work/src-tauri/backend",
            ]
        ),
        other => panic!("unexpected outcome {:?}", other),
    }
    assert_eq!(spawns, 0);
    assert_eq!(messages.len(), 7);
    assert_eq!(messages[0], "Backend directory not found! Searched paths:");
    assert_eq!(messages[6], "  - /work/src-tauri/backend");
}

#[test]
fn startup_with_backend_but_no_interpreter_is_launch_failed() {
    let startup = BackendStartup::new(vec!["/srv/backend".to_string()]);
    let files = set(&["/srv/backend/start_backend.py"]);
    let (outcome, messages, spawns) = drive(startup, &files, &handles(&[]));
    match outcome {
        Some(LaunchOutcome::LaunchFailed(attempts)) => {
            assert_eq!(attempts.len(), 2);
            assert_eq!(attempts[1].entry_point, "start_backend.py");
            assert_eq!(attempts[1].interpreter, "python");
            assert_eq!(attempts[1].cause, "No such file or directory");
        }
        other => panic!("unexpected outcome {:?}", other),
    }
    assert_eq!(spawns, 2);
    assert_eq!(messages[0], "Found backend at: /srv/backend");
    assert_eq!(messages.last().map(|m| m.as_str()), Some("Required files: main.py or start_backend.py"));
}

#[test]
fn startup_found_by_startup_script_alone_still_launches_it() {
    let startup = BackendStartup::new(vec!["/a".to_string(), "/b".to_string()]);
    let files = set(&["/b/start_backend.py"]);
    let (outcome, _, spawns) = drive(startup, &files, &handles(&[("python", 3)]));
    assert!(matches!(outcome, Some(LaunchOutcome::Started(3))));
    assert_eq!(spawns, 2);
}

#[test]
fn startup_under_way_has_no_outcome() {
    let startup: BackendStartup<u32> = BackendStartup::new(vec!["/a".to_string()]);
    assert!(startup.into_outcome().is_none());
}

#[test]
fn startup_ignores_spawn_reports_during_the_search() {
    let mut startup: BackendStartup<u32> = BackendStartup::new(vec!["/a".to_string()]);
    startup.spawned(1);
    startup.spawn_failed("early".to_string());
    assert!(matches!(startup.next_step(), StartupStep::Probe(path) if path == "/a/main.py"));
}

#[test]
fn startup_with_unknown_executable_searches_from_the_working_directory() {
    let startup: BackendStartup<u32> = BackendStartup::begin(&None, &Some("/work".to_string()));
    assert!(matches!(startup.next_step(), StartupStep::Probe(path) if path == "/work/backend/main.py"));
}

#[test]
fn startup_with_nothing_known_searches_relative_paths() {
    let startup: BackendStartup<u32> = BackendStartup::begin(&None, &None);
    assert!(matches!(startup.next_step(), StartupStep::Probe(path) if path == "backend/main.py"));
}
