use tp::muxer::{
    Client, Error, Keys, Layout, OptionName, OptionValue, PaneID, SessionId, WindowID, WindowName,
};
use tp::text::decimal_string;

struct Silent;

impl Client for Silent {
    fn get_option(&mut self, option_name: &OptionName) -> Result<OptionValue, Error> {
        Err(Error::OptionNotFound(option_name.value().to_string()))
    }

    fn set_option(&mut self, _option_name: &OptionName, _option_value: &OptionValue) {}

    fn new_session(&mut self, _session_id: &SessionId, _directory: &str) {}

    fn switch_to_session(&mut self, _session_id: &SessionId) {}

    fn has_session(&mut self, _session_id: &SessionId) -> bool {
        false
    }

    fn new_window(&mut self, _session_id: &SessionId, _directory: &str) {}

    fn rename_window(&mut self, _window_id: &WindowID, _window_name: &WindowName) {}

    fn new_pane(&mut self, _window_id: &WindowID, _directory: &str) {}

    fn select_pane(&mut self, _pane_id: &PaneID) {}

    fn send_keys(&mut self, _pane_id: &PaneID, _keys: Keys) {}

    fn use_layout(&mut self, _layout: &Layout) {}
}

#[test]
fn a_client_can_be_written_outside_the_library() {
    let session = tp::config::Session {
        name: "x".to_string(),
        directory: None,
        windows: tp::config::default_windows(),
    };
    let mut runner = tp::muxer::Muxer::new(Silent);

    let result = runner.apply(&session);

    assert_eq!(
        result.err(),
        Some(Error::BaseIdsError("option `base-index` not found".to_string()))
    );
}

#[test]
fn a_session_address_is_its_name_as_it_is() {
    for name in ["demo", "", "with space", "a:b.c", "żółw"] {
        let session = SessionId::new(name);
        assert_eq!(session.to_string(), name);
        assert_eq!(session.id().to_string(), name);
    }
}

#[test]
fn window_and_pane_addresses_compose() {
    let session = SessionId::new("demo");
    let window = WindowID::new(&session, "3");
    let pane = PaneID::new(&window, "7");

    assert_eq!(window.to_string(), "demo:3");
    assert_eq!(window.id().to_string(), "demo:3");
    assert_eq!(window.session_id().to_string(), "demo");
    assert_eq!(pane.to_string(), "demo:3.7");
    assert_eq!(pane.id().to_string(), "demo:3.7");
    assert_eq!(pane.window_id().to_string(), "demo:3");
    assert_eq!(pane.session_id().to_string(), "demo");
}

#[test]
fn the_same_position_gives_the_same_address() {
    let session = SessionId::new("demo");

    assert_eq!(WindowID::new(&session, "1"), WindowID::new(&session, "1"));
    assert_eq!(
        PaneID::new(&WindowID::new(&session, "1"), "2"),
        PaneID::new(&WindowID::new(&session, "1"), "2")
    );
    assert_eq!(session.clone(), session);
}

#[test]
fn different_positions_give_different_addresses() {
    let session = SessionId::new("demo");
    let window = WindowID::new(&session, "0");
    let positions = [0usize, 1, 2, 9, 10, 11, 19, 21, 100, 101, 110, usize::MAX];
    for first in positions {
        for second in positions {
            if first == second {
                continue;
            }
            let one = WindowID::new(&session, &decimal_string(first));
            let other = WindowID::new(&session, &decimal_string(second));
            assert_ne!(one.to_string(), other.to_string());
            assert_ne!(one, other);

            let one = PaneID::new(&window, &decimal_string(first));
            let other = PaneID::new(&window, &decimal_string(second));
            assert_ne!(one.to_string(), other.to_string());
            assert_ne!(one, other);
        }
    }
}

#[test]
fn small_texts_keep_their_value() {
    assert_eq!(WindowName::new("editor").value(), "editor");
    assert_eq!(OptionName::new("base-index").value(), "base-index");
    assert_eq!(OptionValue::new("1").value(), "1");
    assert_eq!(Keys::new("echo hi").value(), "echo hi");
    assert_eq!(Keys::new("").value(), "");
}

#[test]
fn copies_are_equal_to_what_they_were_made_from() {
    let window = WindowID::new(&SessionId::new("s"), "0");
    let pane = PaneID::new(&window, "1");

    assert_eq!(window.clone(), window);
    assert_eq!(pane.clone(), pane);
    assert_eq!(Keys::new("k").clone(), Keys::new("k"));
    assert_eq!(WindowName::new("n").clone(), WindowName::new("n"));
    assert_eq!(OptionName::new("o").clone(), OptionName::new("o"));
    assert_eq!(OptionValue::new("v").clone(), OptionValue::new("v"));
}

#[test]
fn errors_are_shown_in_a_sentence() {
    assert_eq!(
        Error::BaseIdsError("why".to_string()).to_string(),
        "unable to setup base ids: why"
    );
    assert_eq!(
        Error::OptionNotFound("base-index".to_string()).to_string(),
        "option `base-index` not found"
    );
    assert_eq!(Error::OptionNotFound(String::new()).to_string(), "option `` not found");
}
