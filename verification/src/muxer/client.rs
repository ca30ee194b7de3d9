//! The backend as the reconciler sees it: a handful of operations, each a
//! single blocking call.
//!
//! Nothing is known of a backend but what was said to it and what it
//! answered. Every client therefore carries a history of its calls, and the
//! reconciler's contract is stated over that history.

use super::error::{Error, ErrorView};
use super::ids::{
    Keys, Layout, OptionName, OptionValue, PaneID, PaneIdView, SessionId, WindowID, WindowIdView,
    WindowName,
};
use vstd::prelude::*;

verus! {

/// One call to the backend, with the answer where there is one.
#[derive(Debug, PartialEq)]
pub enum Call {
    GetOption(OptionName, Result<OptionValue, Error>),
    SetOption(OptionName, OptionValue),
    NewSession(SessionId, String),
    SwitchToSession(SessionId),
    HasSession(SessionId, bool),
    NewWindow(SessionId, String),
    RenameWindow(WindowID, WindowName),
    NewPane(WindowID, String),
    SelectPane(PaneID),
    SendKeys(PaneID, Keys),
    UseLayout(Layout),
}

/// A [`Call`] as plain values.
pub enum CallView {
    GetOption(Seq<char>, Result<Seq<char>, ErrorView>),
    SetOption(Seq<char>, Seq<char>),
    NewSession(Seq<char>, Seq<char>),
    SwitchToSession(Seq<char>),
    HasSession(Seq<char>, bool),
    NewWindow(Seq<char>, Seq<char>),
    RenameWindow(WindowIdView, Seq<char>),
    NewPane(WindowIdView, Seq<char>),
    SelectPane(PaneIdView),
    SendKeys(PaneIdView, Seq<char>),
    UseLayout(Seq<char>),
}

/// The answer to an option query as plain values.
pub open spec fn reply_view(reply: Result<OptionValue, Error>) -> Result<Seq<char>, ErrorView> {
    match reply {
        Ok(value) => Ok(value@),
        Err(error) => Err(error@),
    }
}

impl View for Call {
    type V = CallView;

    open spec fn view(&self) -> CallView {
        match self {
            Call::GetOption(name, reply) => CallView::GetOption(name@, reply_view(*reply)),
            Call::SetOption(name, value) => CallView::SetOption(name@, value@),
            Call::NewSession(session, directory) => CallView::NewSession(session@, directory@),
            Call::SwitchToSession(session) => CallView::SwitchToSession(session@),
            Call::HasSession(session, found) => CallView::HasSession(session@, *found),
            Call::NewWindow(session, directory) => CallView::NewWindow(session@, directory@),
            Call::RenameWindow(window, name) => CallView::RenameWindow(window@, name@),
            Call::NewPane(window, directory) => CallView::NewPane(window@, directory@),
            Call::SelectPane(pane) => CallView::SelectPane(pane@),
            Call::SendKeys(pane, keys) => CallView::SendKeys(pane@, keys@),
            Call::UseLayout(layout) => CallView::UseLayout(layout@),
        }
    }
}

/// Whether a call changes the backend. Asking whether a session exists and
/// reading an option change nothing.
pub open spec fn is_mutating(call: CallView) -> bool {
    !(call is HasSession || call is GetOption)
}

/// The operations of a backend. Each method stands for one operation and
/// adds exactly that call to the client's history. The mutating operations
/// report no failure.
pub trait Client {
    /// Every call made through this client so far, oldest first. A client
    /// that keeps a record says here what the record holds; of one that keeps
    /// none nothing is known beyond what its methods promise.
    open spec fn history(&self) -> Seq<CallView> {
        arbitrary()
    }

    /// Asks for the value of a backend option.
    fn get_option(&mut self, option_name: &OptionName) -> (reply: Result<OptionValue, Error>)
        ensures
            final(self).history() == old(self).history().push(
                CallView::GetOption(option_name@, reply_view(reply)),
            ),
    ;

    /// Sets a backend option.
    fn set_option(&mut self, option_name: &OptionName, option_value: &OptionValue)
        ensures
            final(self).history() == old(self).history().push(
                CallView::SetOption(option_name@, option_value@),
            ),
    ;

    /// Creates a session, and with it its first window and that window's
    /// first pane, in the given directory.
    fn new_session(&mut self, session_id: &SessionId, directory: &str)
        ensures
            final(self).history() == old(self).history().push(
                CallView::NewSession(session_id@, directory@),
            ),
    ;

    /// Attaches the terminal to the session.
    fn switch_to_session(&mut self, session_id: &SessionId)
        ensures
            final(self).history() == old(self).history().push(
                CallView::SwitchToSession(session_id@),
            ),
    ;

    /// Asks whether a session of that name exists.
    fn has_session(&mut self, session_id: &SessionId) -> (found: bool)
        ensures
            final(self).history() == old(self).history().push(
                CallView::HasSession(session_id@, found),
            ),
    ;

    /// Opens a further window in the session, and with it the window's
    /// first pane, in the given directory.
    fn new_window(&mut self, session_id: &SessionId, directory: &str)
        ensures
            final(self).history() == old(self).history().push(
                CallView::NewWindow(session_id@, directory@),
            ),
    ;

    /// Gives the window a name.
    fn rename_window(&mut self, window_id: &WindowID, window_name: &WindowName)
        ensures
            final(self).history() == old(self).history().push(
                CallView::RenameWindow(window_id@, window_name@),
            ),
    ;

    /// Splits a further pane off in the window, in the given directory.
    fn new_pane(&mut self, window_id: &WindowID, directory: &str)
        ensures
            final(self).history() == old(self).history().push(
                CallView::NewPane(window_id@, directory@),
            ),
    ;

    /// Makes the pane the active one; this implies selecting its window.
    fn select_pane(&mut self, pane_id: &PaneID)
        ensures
            final(self).history() == old(self).history().push(CallView::SelectPane(pane_id@)),
    ;

    /// Types the keys into the pane and submits them.
    fn send_keys(&mut self, pane_id: &PaneID, keys: Keys)
        ensures
            final(self).history() == old(self).history().push(
                CallView::SendKeys(pane_id@, keys@),
            ),
    ;

    /// Arranges the panes by a layout.
    fn use_layout(&mut self, layout: &Layout)
        ensures
            final(self).history() == old(self).history().push(CallView::UseLayout(layout@)),
    ;
}

} // verus!
