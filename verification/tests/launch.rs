use bottles_server::launch::{
    find_goggame_primary_executable, find_primary_executable_heuristic, goggame_info_path,
    install_root_name, looks_like_helper, primary_task_path, read_play_tasks, PlayTask,
};

fn list(paths: &[&str]) -> Vec<String> {
    paths.iter().map(|p| p.to_string()).collect()
}

fn guess(paths: &[&str], dir: &str) -> Option<String> {
    find_primary_executable_heuristic(&list(paths), dir)
}

#[test]
fn no_executable_is_guessed_from_nothing() {
    assert_eq!(guess(&[], "Game"), None);
}

#[test]
fn executable_named_after_the_directory_is_guessed() {
    let paths = [
        "Program Files/Hollow Knight/UnityCrashHandler64.exe",
        "Program Files/Hollow Knight/launcher.exe",
        "Program Files/Hollow Knight/Hollow Knight.exe",
        "Program Files/Hollow Knight/data/level0",
    ];
    assert_eq!(
        guess(&paths, "Hollow Knight"),
        Some("Program Files/Hollow Knight/Hollow Knight.exe".to_string())
    );
}

#[test]
fn case_of_the_name_does_not_matter() {
    assert_eq!(
        guess(&["Program Files/Celeste/a.exe", "Program Files/Celeste/CELESTE.EXE"], "Celeste"),
        Some("Program Files/Celeste/CELESTE.EXE".to_string())
    );
}

#[test]
fn first_of_two_executables_named_after_the_directory_is_guessed() {
    assert_eq!(
        guess(&["Program Files/X/x.exe", "Program Files/X/X.exe"], "X"),
        Some("Program Files/X/x.exe".to_string())
    );
}

#[test]
fn only_executable_that_is_no_helper_is_guessed() {
    let paths = [
        "Program Files/Game/unins000.exe",
        "Program Files/Game/play.exe",
        "Program Files/Game/vcredist_x64.exe",
        "Program Files/Game/readme.txt",
    ];
    assert_eq!(guess(&paths, "Game"), Some("Program Files/Game/play.exe".to_string()));
}

#[test]
fn nothing_is_guessed_between_two_executables() {
    assert_eq!(guess(&["Program Files/Game/a.exe", "Program Files/Game/b.exe"], "Game"), None);
}

#[test]
fn nothing_is_guessed_from_helpers_alone() {
    assert_eq!(guess(&["Program Files/Game/Setup.exe"], "Game"), None);
}

#[test]
fn helper_named_after_the_directory_is_guessed() {
    assert_eq!(
        guess(&["Program Files/Helper/helper.exe"], "Helper"),
        Some("Program Files/Helper/helper.exe".to_string())
    );
}

#[test]
fn executables_below_the_install_directory_do_not_count() {
    let paths = ["Program Files/Game/bin/game.exe", "Program Files/Other/game.exe", "game.exe"];
    assert_eq!(guess(&paths, "Game"), None);
}

#[test]
fn prefix_of_the_install_directory_is_matched_exactly() {
    assert_eq!(guess(&["program files/Game/game.exe"], "Game"), None);
    assert_eq!(guess(&["Program Files/Games/game.exe"], "Game"), None);
}

#[test]
fn executable_without_a_stem_counts_as_a_candidate() {
    assert_eq!(guess(&["Program Files/Game/.exe"], "Game"), Some("Program Files/Game/.exe".to_string()));
    assert_eq!(guess(&["Program Files/.exe/.exe"], ".exe"), Some("Program Files/.exe/.exe".to_string()));
}

#[test]
fn helpers_are_told_by_their_names() {
    for name in [
        "UnityCrashHandler64.exe",
        "crashpad_handler.exe",
        "unins000.exe",
        "redist.exe",
        "VCRedist.exe",
        "Setup.exe",
        "webhelper.exe",
    ] {
        assert!(looks_like_helper(name), "{name}");
    }
    assert!(!looks_like_helper("game.exe"));
    assert!(!looks_like_helper("set-up.exe"));
    assert!(!looks_like_helper(""));
}

#[test]
fn goggame_document_is_the_first_of_its_name() {
    assert_eq!(
        goggame_info_path(&list(&["a/goggame.info", "a/GOGGAME-12.INFO", "b/goggame-3.info"])),
        Some("a/GOGGAME-12.INFO".to_string())
    );
    assert_eq!(goggame_info_path(&list(&["goggame-12.info/x", "my-goggame-1.info"])), None);
    assert_eq!(
        goggame_info_path(&list(&["goggame-1.info/."])),
        Some("goggame-1.info/.".to_string())
    );
}

const DOCUMENT: &str = r#"{
    "gameId": "12",
    "playTasks": [
        {"isPrimary": false, "path": "other.exe"},
        {"isPrimary": true, "path": "bin\\x64\\game.exe"},
        {"isPrimary": true, "path": "late.exe"}
    ]
}"#;

fn named(info: &str, document: &str) -> Option<String> {
    find_goggame_primary_executable(info, document.as_bytes())
}

#[test]
fn goggame_document_names_its_primary_task() {
    assert_eq!(
        named("Program Files/Game/goggame-12.info", DOCUMENT),
        Some("Program Files/Game/bin/x64/game.exe".to_string())
    );
    assert_eq!(named("goggame-12.info", DOCUMENT), Some("bin/x64/game.exe".to_string()));
    assert_eq!(named("/goggame-12.info", DOCUMENT), Some("/bin/x64/game.exe".to_string()));
}

#[test]
fn rooted_task_path_stands_alone() {
    let document = r#"{"playTasks": [{"isPrimary": true, "path": "\\game.exe"}]}"#;
    assert_eq!(named("Program Files/Game/goggame-1.info", document), Some("/game.exe".to_string()));
}

#[test]
fn backslashes_of_the_documents_place_are_turned_too() {
    let document = r#"{"playTasks": [{"isPrimary": true, "path": "game.exe"}]}"#;
    assert_eq!(named("Games\\X/goggame-1.info", document), Some("Games/X/game.exe".to_string()));
}

#[test]
fn surprises_in_a_goggame_document_name_nothing() {
    for document in [
        "",
        "no json",
        "[]",
        "{}",
        r#"{"playTasks": {}}"#,
        r#"{"playTasks": []}"#,
        r#"{"playTasks": [{"path": "a.exe"}]}"#,
        r#"{"playTasks": [{"isPrimary": "true", "path": "a.exe"}]}"#,
        r#"{"playTasks": [{"isPrimary": true}]}"#,
        r#"{"playTasks": [{"isPrimary": true, "path": 3}, {"isPrimary": true, "path": "b.exe"}]}"#,
    ] {
        assert_eq!(named("goggame-1.info", document), None, "{document}");
    }
}

#[test]
fn play_tasks_are_read_from_a_parsed_document() {
    let value: serde_json::Value = serde_json::from_str(DOCUMENT).unwrap();
    let tasks = read_play_tasks(&value).unwrap();
    assert_eq!(tasks.len(), 3);
    assert_eq!(tasks[1].is_primary, Some(true));
    assert_eq!(tasks[1].path.as_deref(), Some("bin\\x64\\game.exe"));
    assert!(read_play_tasks(&value["playTasks"]).is_none());
}

#[test]
fn task_without_a_path_is_not_passed_over() {
    let tasks = vec![
        PlayTask { is_primary: None, path: Some("a.exe".to_string()) },
        PlayTask { is_primary: Some(true), path: None },
        PlayTask { is_primary: Some(true), path: Some("b.exe".to_string()) },
    ];
    assert_eq!(primary_task_path("x/goggame-1.info", &tasks), None);
    assert_eq!(primary_task_path("x/goggame-1.info", &tasks[2..]), Some("x/b.exe".to_string()));
}

#[test]
fn install_root_lies_in_program_files() {
    assert_eq!(install_root_name("Hollow Knight"), "Program Files/Hollow Knight");
}
