use backend_supervisor::folders::{
    get_downloads_path, home_downloads, FolderOpener, FolderProbe, OpenStep, Platform,
};
use std::collections::HashSet;

fn probe(path: &str, exists: bool) -> Option<FolderProbe> {
    Some(FolderProbe { path: path.to_string(), exists })
}

fn open(platform: Platform, folder: Result<String, String>, working: &[&str]) -> (Result<String, String>, Vec<String>) {
    let working: HashSet<&str> = working.iter().copied().collect();
    let mut opener = FolderOpener::new(platform, folder);
    let mut tried: Vec<String> = Vec::new();
    loop {
        match opener.next_step() {
            OpenStep::Run { program, folder, silent } => {
                assert_eq!(folder, "/home/ana/Downloads");
                assert_eq!(silent, platform == Platform::Linux);
                let succeeded = working.contains(program.as_str());
                tried.push(program);
                opener.ran(succeeded);
            }
            OpenStep::Finished(result) => return (result, tried),
        }
    }
}

#[test]
fn home_downloads_is_inside_the_home_directory() {
    assert_eq!(home_downloads(Platform::Linux, "/home/ana"), "/home/ana/Downloads");
    assert_eq!(home_downloads(Platform::Linux, "/home/ana/"), "/home/ana/Downloads");
    assert_eq!(home_downloads(Platform::MacOs, "/Users/ana"), "/Users/ana/Downloads");
}

#[test]
fn home_downloads_on_windows_uses_backslashes() {
    assert_eq!(home_downloads(Platform::Windows, "C:\\Users\\ana"), "C:\\Users\\ana\\Downloads");
    assert_eq!(home_downloads(Platform::Windows, "C:\\Users\\ana\\"), "C:\\Users\\ana\\Downloads");
    assert_eq!(home_downloads(Platform::Windows, "C:/Users/ana/"), "C:/Users/ana/Downloads");
    assert_eq!(home_downloads(Platform::Windows, ""), "Downloads");
}

#[test]
fn downloads_in_home_is_preferred_when_it_exists() {
    for platform in [Platform::Linux, Platform::Windows, Platform::MacOs] {
        let found = get_downloads_path(
            platform,
            &probe("/home/ana/Downloads", true),
            &probe("/data/downloads", true),
            &Some("/system/downloads".to_string()),
        );
        assert_eq!(found, Ok("/home/ana/Downloads".to_string()));
    }
}

#[test]
fn linux_falls_back_to_the_desktop_folder_only_if_it_exists() {
    let missing = probe("/home/ana/Downloads", false);
    let system = Some("/system/downloads".to_string());
    assert_eq!(
        get_downloads_path(Platform::Linux, &missing, &probe("/data/downloads", true), &system),
        Ok("/data/downloads".to_string())
    );
    assert_eq!(
        get_downloads_path(Platform::Linux, &missing, &probe("/data/downloads", false), &system),
        Err("Could not determine downloads folder".to_string())
    );
    assert_eq!(
        get_downloads_path(Platform::Linux, &None, &None, &system),
        Err("Could not determine downloads folder".to_string())
    );
}

#[test]
fn other_platforms_take_the_system_folder_as_it_is() {
    let desktop = probe("/data/downloads", true);
    assert_eq!(
        get_downloads_path(
            Platform::Windows,
            &None,
            &desktop,
            &Some("C:\\Users\\ana\\Downloads".to_string())
        ),
        Ok("C:\\Users\\ana\\Downloads".to_string())
    );
    assert_eq!(
        get_downloads_path(
            Platform::MacOs,
            &probe("/Users/ana/Downloads", false),
            &None,
            &Some("/Volumes/d".to_string())
        ),
        Ok("/Volumes/d".to_string())
    );
    assert_eq!(
        get_downloads_path(Platform::Windows, &None, &desktop, &None),
        Err("Could not determine downloads folder".to_string())
    );
}

#[test]
fn no_folder_at_all_is_an_error() {
    for platform in [Platform::Linux, Platform::Windows, Platform::MacOs] {
        assert_eq!(
            get_downloads_path(platform, &None, &None, &None),
            Err("Could not determine downloads folder".to_string())
        );
    }
}

#[test]
fn linux_tries_the_file_managers_in_order() {
    let folder = Ok("/home/ana/Downloads".to_string());
    let (result, tried) = open(Platform::Linux, folder, &["dolphin"]);
    assert_eq!(result, Ok("Pasta Downloads aberta com sucesso".to_string()));
    assert_eq!(tried, vec!["xdg-open", "nautilus", "dolphin"]);
}

#[test]
fn opener_stops_at_the_first_success() {
    let folder = Ok("/home/ana/Downloads".to_string());
    let (result, tried) = open(Platform::Linux, folder, &["xdg-open", "nautilus", "dolphin"]);
    assert_eq!(result, Ok("Pasta Downloads aberta com sucesso".to_string()));
    assert_eq!(tried, vec!["xdg-open"]);
}

#[test]
fn each_platform_has_its_own_failure_message() {
    let folder = || Ok("/home/ana/Downloads".to_string());
    let (linux, tried) = open(Platform::Linux, folder(), &[]);
    assert_eq!(linux, Err("Não foi possível abrir o gerenciador de arquivos".to_string()));
    assert_eq!(tried.len(), 3);
    let (windows, tried) = open(Platform::Windows, folder(), &[]);
    assert_eq!(windows, Err("Não foi possível abrir o Explorer".to_string()));
    assert_eq!(tried, vec!["explorer"]);
    let (mac, tried) = open(Platform::MacOs, folder(), &["explorer"]);
    assert_eq!(mac, Err("Não foi possível abrir o Finder".to_string()));
    assert_eq!(tried, vec!["open"]);
}

#[test]
fn opener_hands_on_the_reason_when_there_is_no_folder() {
    let (result, tried) = open(
        Platform::MacOs,
        Err("Could not determine downloads folder".to_string()),
        &["open"],
    );
    assert_eq!(result, Err("Could not determine downloads folder".to_string()));
    assert!(tried.is_empty());
}

#[test]
fn finished_opener_ignores_further_reports() {
    let mut opener = FolderOpener::new(Platform::Windows, Ok("/home/ana/Downloads".to_string()));
    opener.ran(true);
    opener.ran(false);
    opener.ran(false);
    assert!(matches!(opener.next_step(), OpenStep::Finished(Ok(_))));
}
