//! Which directory a window or a pane starts in.
//!
//! The nearest directory wins: the pane's own, else its window's, else the
//! session's, else the current directory.

use crate::config::optional_text;
use vstd::prelude::*;
use vstd::string::*;

verus! {

/// The nearest of the three directories that is there.
pub open spec fn resolve(
    session: Option<Seq<char>>,
    window: Option<Seq<char>>,
    pane: Option<Seq<char>>,
) -> Option<Seq<char>> {
    if pane is Some {
        pane
    } else if window is Some {
        window
    } else {
        session
    }
}

/// The directory handed to the backend: the resolved one, or the current
/// directory where there is none.
pub open spec fn directory_text(directory: Option<Seq<char>>) -> Seq<char> {
    match directory {
        Some(path) => path,
        None => "."@,
    }
}

/// The directory in which a pane starts.
pub open spec fn effective_directory(
    session: Option<Seq<char>>,
    window: Option<Seq<char>>,
    pane: Option<Seq<char>>,
) -> Seq<char> {
    directory_text(resolve(session, window, pane))
}

fn cloned_directory(directory: &Option<String>) -> (copy: Option<String>)
    ensures
        copy == *directory,
{
    match directory {
        Some(path) => Some(path.clone()),
        None => None,
    }
}

/// The nearest of the three directories that is there.
pub fn resolve_directory(
    session_dir: &Option<String>,
    window_dir: &Option<String>,
    pane_dir: &Option<String>,
) -> (directory: Option<String>)
    ensures
        optional_text(directory) == resolve(
            optional_text(*session_dir),
            optional_text(*window_dir),
            optional_text(*pane_dir),
        ),
{
    if pane_dir.is_some() {
        cloned_directory(pane_dir)
    } else if window_dir.is_some() {
        cloned_directory(window_dir)
    } else {
        cloned_directory(session_dir)
    }
}

/// The directory as the backend takes it; the current directory where none
/// is given.
pub fn directory_to_string(directory: Option<String>) -> (text: String)
    ensures
        text@ == directory_text(optional_text(directory)),
{
    match directory {
        Some(path) => path,
        None => String::from_str("."),
    }
}

} // verus!
