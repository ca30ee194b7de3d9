use tp::config::{default_panes, default_windows, Pane, Session, Window};

#[test]
fn a_pane_is_blank_by_default() {
    let pane = Pane::default();

    assert!(!pane.focus);
    assert_eq!(pane.directory, None);
    assert_eq!(pane.command, None);
}

#[test]
fn a_window_is_empty_by_default() {
    let window = Window::default();

    assert_eq!(window.name, None);
    assert_eq!(window.directory, None);
    assert!(window.panes.is_empty());
}

#[test]
fn a_window_without_panes_gets_one_blank_pane() {
    let panes = default_panes();

    assert_eq!(panes, vec![Pane { focus: false, directory: None, command: None }]);
}

#[test]
fn a_session_without_windows_gets_one_blank_window() {
    let windows = default_windows();

    assert_eq!(windows.len(), 1);
    assert_eq!(windows[0].panes.len(), 1);
    assert_eq!(windows[0].name, None);
    assert_eq!(windows[0].directory, None);
    assert!(!windows[0].panes[0].focus);
    assert_eq!(windows[0].panes[0].command, None);
}

#[test]
fn the_template_is_a_shell_window_that_says_hello() {
    let session = Session::template("new-test-session");

    assert_eq!(session.name, "new-test-session");
    assert_eq!(session.directory, Some(".".into()));
    assert_eq!(session.windows.len(), 1);
    assert_eq!(session.windows[0].name, Some("shell".to_string()));
    assert_eq!(session.windows[0].directory, None);
    assert_eq!(session.windows[0].panes.len(), 1);
    assert!(session.windows[0].panes[0].focus);
    assert_eq!(session.windows[0].panes[0].directory, None);
    assert_eq!(
        session.windows[0].panes[0].command,
        Some("echo 'Hello :)'".to_string())
    );
}

#[test]
fn a_session_file_is_named_after_its_session() {
    assert_eq!(Session::file_name("work"), "work.yaml");
    assert_eq!(Session::file_name(""), ".yaml");
    assert_eq!(Session::file_name("a.b"), "a.b.yaml");
}

#[test]
fn only_yaml_files_stand_for_sessions() {
    assert_eq!(Session::name_of_file("session1.yaml"), Some("session1".to_string()));
    assert_eq!(Session::name_of_file("a.b.yaml"), Some("a.b".to_string()));
    assert_eq!(Session::name_of_file("..yaml"), Some(".".to_string()));
    assert_eq!(Session::name_of_file("żółw.yaml"), Some("żółw".to_string()));
    assert_eq!(Session::name_of_file(".yaml"), None);
    assert_eq!(Session::name_of_file("yaml"), None);
    assert_eq!(Session::name_of_file(""), None);
    assert_eq!(Session::name_of_file("other_file.txt"), None);
    assert_eq!(Session::name_of_file("session.yml"), None);
    assert_eq!(Session::name_of_file("session.YAML"), None);
    assert_eq!(Session::name_of_file("session.yaml.bak"), None);
    assert_eq!(Session::name_of_file("sessionyaml"), None);
}

#[test]
fn file_names_are_read_as_paths_are() {
    let names = [
        "a.yaml", ".yaml", "..yaml", "yaml", "a.b.yaml", "a.yaml.", "a.", ".a", "a", "a.yml", "",
    ];
    for name in names {
        let path = std::path::Path::new(name);
        let expected = match path.extension() {
            Some(extension) if extension == "yaml" => {
                path.file_stem().and_then(|stem| stem.to_str()).map(|stem| stem.to_string())
            }
            _ => None,
        };
        assert_eq!(Session::name_of_file(name), expected, "for {name:?}");
    }
}

#[test]
fn the_name_of_a_session_file_is_found_again() {
    for name in ["work", "a.b", "x", "żółw"] {
        assert_eq!(
            Session::name_of_file(&Session::file_name(name)),
            Some(name.to_string())
        );
    }
}

#[test]
fn sessions_are_listed_in_ascending_order() {
    let files = vec![
        "session2.yaml".to_string(),
        "other_file.txt".to_string(),
        "session1.yaml".to_string(),
        "subdir".to_string(),
    ];

    let sessions = Session::names_of_files(&files);

    assert_eq!(sessions, vec!["session1".to_string(), "session2".to_string()]);
}

#[test]
fn a_shorter_name_comes_before_the_names_it_begins() {
    let files = vec![
        "b.yaml".to_string(),
        "ab.yaml".to_string(),
        "a.yaml".to_string(),
        "B.yaml".to_string(),
        "a.yaml".to_string(),
        "é.yaml".to_string(),
    ];

    let sessions = Session::names_of_files(&files);

    assert_eq!(sessions, vec!["B", "a", "a", "ab", "b", "é"]);
}

#[test]
fn no_files_no_sessions() {
    assert!(Session::names_of_files(&vec![]).is_empty());
    assert!(Session::names_of_files(&vec!["notes.txt".to_string()]).is_empty());
}
