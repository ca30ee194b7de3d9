//! The declarative description of a session: a named tree of windows and
//! panes, in the order in which they are to be created.

use crate::text::{ascending, same_text, sort_texts, texts_view};
use vstd::prelude::*;
use vstd::string::*;

verus! {

/// One pane of a window.
#[derive(Debug, Clone, PartialEq)]
pub struct Pane {
    /// Whether the pane is to be the active one once the session is built.
    pub focus: bool,
    /// Working directory of this pane alone.
    pub directory: Option<String>,
    /// A shell line to send to the pane once it exists.
    pub command: Option<String>,
}

/// One window of a session.
#[derive(Debug, Clone, PartialEq)]
pub struct Window {
    /// The window's name; without one the backend's own naming stands.
    pub name: Option<String>,
    /// Working directory of this window and its panes.
    pub directory: Option<String>,
    /// The panes, in creation order.
    pub panes: Vec<Pane>,
}

/// A whole session.
#[derive(Debug, Clone, PartialEq)]
pub struct Session {
    /// The name by which the backend knows the session.
    pub name: String,
    /// Working directory of every window and pane that names none.
    pub directory: Option<String>,
    /// The windows, in creation order.
    pub windows: Vec<Window>,
}

/// A pane as plain values.
pub struct PaneView {
    pub focus: bool,
    pub directory: Option<Seq<char>>,
    pub command: Option<Seq<char>>,
}

/// A window as plain values.
pub struct WindowView {
    pub name: Option<Seq<char>>,
    pub directory: Option<Seq<char>>,
    pub panes: Seq<PaneView>,
}

/// A session as plain values.
pub struct SessionView {
    pub name: Seq<char>,
    pub directory: Option<Seq<char>>,
    pub windows: Seq<WindowView>,
}

/// The characters of an optional text.
pub open spec fn optional_text(text: Option<String>) -> Option<Seq<char>> {
    match text {
        Some(t) => Some(t@),
        None => None,
    }
}

impl View for Pane {
    type V = PaneView;

    open spec fn view(&self) -> PaneView {
        PaneView {
            focus: self.focus,
            directory: optional_text(self.directory),
            command: optional_text(self.command),
        }
    }
}

impl View for Window {
    type V = WindowView;

    open spec fn view(&self) -> WindowView {
        WindowView {
            name: optional_text(self.name),
            directory: optional_text(self.directory),
            panes: Seq::new(self.panes@.len(), |i: int| self.panes@[i]@),
        }
    }
}

impl View for Session {
    type V = SessionView;

    open spec fn view(&self) -> SessionView {
        SessionView {
            name: self.name@,
            directory: optional_text(self.directory),
            windows: Seq::new(self.windows@.len(), |i: int| self.windows@[i]@),
        }
    }
}

/// The pane that stands where none was written: no focus, no directory, no
/// command.
pub open spec fn blank_pane() -> PaneView {
    PaneView { focus: false, directory: None, command: None }
}

/// The window that stands where none was written: no name, no directory, one
/// blank pane.
pub open spec fn blank_window() -> WindowView {
    WindowView { name: None, directory: None, panes: seq![blank_pane()] }
}

impl Default for Pane {
    fn default() -> (pane: Pane)
        ensures
            pane@ == blank_pane(),
    {
        Pane { focus: false, directory: None, command: None }
    }
}

impl Default for Window {
    /// A window without a name, a directory or panes.
    fn default() -> (window: Window)
        ensures
            window@ == (WindowView { name: None, directory: None, panes: Seq::empty() }),
    {
        let window = Window { name: None, directory: None, panes: Vec::new() };
        assert(window@.panes =~= Seq::empty());
        window
    }
}

/// The panes of a window that lists none: a single blank pane.
pub fn default_panes() -> (panes: Vec<Pane>)
    ensures
        panes@.len() == 1,
        panes@[0]@ == blank_pane(),
{
    let mut panes = Vec::new();
    panes.push(Pane::default());
    panes
}

/// The windows of a session that lists none: a single blank window.
pub fn default_windows() -> (windows: Vec<Window>)
    ensures
        windows@.len() == 1,
        windows@[0]@ == blank_window(),
{
    let window = Window { name: None, directory: None, panes: default_panes() };
    assert(window@.panes =~= seq![blank_pane()]);
    let mut windows = Vec::new();
    windows.push(window);
    windows
}

/// The session written for a new name, as a start: in the current
/// directory, one window named `shell`, one focused pane that says hello.
pub open spec fn template(name: Seq<char>) -> SessionView {
    SessionView {
        name,
        directory: Some("."@),
        windows: seq![
            WindowView {
                name: Some("shell"@),
                directory: None,
                panes: seq![
                    PaneView { focus: true, directory: None, command: Some("echo 'Hello :)'"@) },
                ],
            },
        ],
    }
}

/// The name of the file that holds the session `name`.
pub open spec fn session_file(name: Seq<char>) -> Seq<char> {
    name + ".yaml"@
}

/// The session that a file name stands for. A session file is named after
/// its session, with the extension `yaml`; a file that has only the
/// extension for a name stands for none.
pub open spec fn session_of_file(file_name: Seq<char>) -> Option<Seq<char>> {
    let stem = file_name.len() - ".yaml"@.len();
    if stem > 0 && file_name.skip(stem) == ".yaml"@ {
        Some(file_name.take(stem))
    } else {
        None
    }
}

/// The sessions that a list of file names stands for, in the order of the
/// files.
pub open spec fn sessions_of_files(file_names: Seq<Seq<char>>) -> Seq<Seq<char>>
    decreases file_names.len(),
{
    if file_names.len() == 0 {
        Seq::empty()
    } else {
        let earlier = sessions_of_files(file_names.drop_last());
        match session_of_file(file_names.last()) {
            Some(name) => earlier.push(name),
            None => earlier,
        }
    }
}

impl Session {
    /// A first session for `name`, to be edited.
    pub fn template(name: &str) -> (session: Session)
        ensures
            session@ == template(name@),
    {
        let mut panes = Vec::new();
        panes.push(
            Pane {
                focus: true,
                directory: None,
                command: Some(String::from_str("echo 'Hello :)'")),
            },
        );
        let window = Window { name: Some(String::from_str("shell")), directory: None, panes };
        let mut windows = Vec::new();
        windows.push(window);
        let session = Session {
            name: String::from_str(name),
            directory: Some(String::from_str(".")),
            windows,
        };
        assert(window@.panes =~= template(name@).windows[0].panes);
        assert(session@.windows =~= template(name@).windows);
        session
    }

    /// The name of the file that holds the session `name`.
    pub fn file_name(name: &str) -> (file_name: String)
        ensures
            file_name@ == session_file(name@),
    {
        String::from_str(name).concat(".yaml")
    }

    /// The session that the file `file_name` holds, going by its name.
    pub fn name_of_file(file_name: &str) -> (name: Option<String>)
        ensures
            optional_text(name) == session_of_file(file_name@),
    {
        let extension = ".yaml";
        let length = file_name.unicode_len();
        if length <= extension.unicode_len() {
            return None;
        }
        let stem = length - extension.unicode_len();
        if same_text(file_name.substring_char(stem, length), extension) {
            Some(String::from_str(file_name.substring_char(0, stem)))
        } else {
            None
        }
    }

    /// The sessions held by the files of the given names, in ascending
    /// order.
    pub fn names_of_files(file_names: &Vec<String>) -> (names: Vec<String>)
        ensures
            ascending(texts_view(names@)),
            texts_view(names@).to_multiset() == sessions_of_files(
                texts_view(file_names@),
            ).to_multiset(),
    {
        let mut names: Vec<String> = Vec::new();
        let mut i: usize = 0;
        while i < file_names.len()
            invariant
                i <= file_names.len(),
                texts_view(names@) == sessions_of_files(texts_view(file_names@).take(i as int)),
            decreases file_names.len() - i,
        {
            assert(texts_view(file_names@).take(i + 1).drop_last() =~= texts_view(
                file_names@,
            ).take(i as int));
            match Session::name_of_file(file_names[i].as_str()) {
                Some(name) => {
                    names.push(name);
                },
                None => {},
            }
            i = i + 1;
        }
        assert(texts_view(file_names@).take(i as int) =~= texts_view(file_names@));
        sort_texts(&names)
    }
}

} // verus!
