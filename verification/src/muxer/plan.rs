//! What reconciling a session amounts to: the calls that are made, in order,
//! and the report that is handed back, as functions of the declared session
//! and of what the backend answers.

use super::client::CallView;
use super::directory::effective_directory;
use super::error::{error_text, ErrorView};
use super::ids::{pane_address, window_address, PaneIdView, WindowIdView};
use crate::config::{SessionView, WindowView};
use crate::text::{decimal, failure_text, read_index, ParseFailure};
use vstd::prelude::*;

verus! {

/// The option that holds the index of a session's first window.
pub open spec fn window_base_option() -> Seq<char> {
    "base-index"@
}

/// The option that holds the index of a window's first pane.
pub open spec fn pane_base_option() -> Seq<char> {
    "pane-base-index"@
}

/// The address of the window with the given index.
pub open spec fn window_id_at(session: Seq<char>, index: nat) -> WindowIdView {
    WindowIdView { session, address: window_address(session, decimal(index)) }
}

/// The address of the pane with the given index in the window with the given
/// index.
pub open spec fn pane_id_at(session: Seq<char>, window: nat, pane: nat) -> PaneIdView {
    PaneIdView {
        window: window_id_at(session, window),
        address: pane_address(window_address(session, decimal(window)), decimal(pane)),
    }
}

/// The directory of a window's first pane, where it has one.
pub open spec fn first_pane_directory(window: WindowView) -> Option<Seq<char>> {
    if window.panes.len() > 0 {
        window.panes[0].directory
    } else {
        None
    }
}

/// The directory in which the window at position `w` is opened: that of its
/// first pane.
pub open spec fn window_directory(session: SessionView, w: int) -> Seq<char> {
    effective_directory(
        session.directory,
        session.windows[w].directory,
        first_pane_directory(session.windows[w]),
    )
}

/// The directory in which the pane at position `p` of the window at position
/// `w` starts.
pub open spec fn pane_directory(session: SessionView, w: int, p: int) -> Seq<char> {
    effective_directory(
        session.directory,
        session.windows[w].directory,
        session.windows[w].panes[p].directory,
    )
}

/// The directory in which the session is created: that of its first window.
pub open spec fn initial_directory(session: SessionView) -> Seq<char> {
    if session.windows.len() > 0 {
        window_directory(session, 0)
    } else {
        effective_directory(session.directory, None, None)
    }
}

/// The calls made for one pane. The first pane of a window comes with the
/// window; every other pane is split off. A pane with a command gets it typed.
pub open spec fn pane_calls(
    session: SessionView,
    window_base: nat,
    pane_base: nat,
    w: int,
    p: int,
) -> Seq<CallView> {
    let pane = session.windows[w].panes[p];
    let split = if p > 0 {
        seq![
            CallView::NewPane(
                window_id_at(session.name, (window_base + w) as nat),
                pane_directory(session, w, p),
            ),
        ]
    } else {
        Seq::empty()
    };
    let typed = match pane.command {
        Some(command) => seq![
            CallView::SendKeys(
                pane_id_at(session.name, (window_base + w) as nat, (pane_base + p) as nat),
                command,
            ),
        ],
        None => Seq::empty(),
    };
    split + typed
}

/// The calls made for the first `count` panes of the window at position `w`.
pub open spec fn panes_calls(
    session: SessionView,
    window_base: nat,
    pane_base: nat,
    w: int,
    count: nat,
) -> Seq<CallView>
    decreases count,
{
    if count == 0 {
        Seq::empty()
    } else {
        panes_calls(session, window_base, pane_base, w, (count - 1) as nat) + pane_calls(
            session,
            window_base,
            pane_base,
            w,
            count - 1,
        )
    }
}

/// The calls made for a window before its panes are seen to. The first
/// window comes with the session; every other one is opened. A window with a
/// name is renamed to it.
pub open spec fn window_opening(session: SessionView, window_base: nat, w: int) -> Seq<CallView> {
    let opened = if w > 0 {
        seq![CallView::NewWindow(session.name, window_directory(session, w))]
    } else {
        Seq::empty()
    };
    let renamed = match session.windows[w].name {
        Some(name) => seq![
            CallView::RenameWindow(window_id_at(session.name, (window_base + w) as nat), name),
        ],
        None => Seq::empty(),
    };
    opened + renamed
}

/// The calls made for the window at position `w` and all its panes.
pub open spec fn window_calls(
    session: SessionView,
    window_base: nat,
    pane_base: nat,
    w: int,
) -> Seq<CallView> {
    window_opening(session, window_base, w) + panes_calls(
        session,
        window_base,
        pane_base,
        w,
        session.windows[w].panes.len(),
    )
}

/// The calls made for the first `count` windows.
pub open spec fn windows_calls(
    session: SessionView,
    window_base: nat,
    pane_base: nat,
    count: nat,
) -> Seq<CallView>
    decreases count,
{
    if count == 0 {
        Seq::empty()
    } else {
        windows_calls(session, window_base, pane_base, (count - 1) as nat) + window_calls(
            session,
            window_base,
            pane_base,
            count - 1,
        )
    }
}

/// The position of the last pane among the first `count` panes of the window
/// at position `w` that asks for the focus.
pub open spec fn focus_in_window(session: SessionView, w: int, count: nat) -> Option<int>
    decreases count,
{
    if count == 0 {
        None
    } else if session.windows[w].panes[count - 1].focus {
        Some(count - 1)
    } else {
        focus_in_window(session, w, (count - 1) as nat)
    }
}

/// The positions (window, pane) of the last pane among those of the first
/// `count` windows that asks for the focus.
pub open spec fn focus_in_windows(session: SessionView, count: nat) -> Option<(int, int)>
    decreases count,
{
    if count == 0 {
        None
    } else {
        match focus_in_window(session, count - 1, session.windows[count - 1].panes.len()) {
            Some(p) => Some((count - 1, p)),
            None => focus_in_windows(session, (count - 1) as nat),
        }
    }
}

/// The pane that ends up with the focus: the last one in the whole session
/// that asks for it.
pub open spec fn focus(session: SessionView) -> Option<(int, int)> {
    focus_in_windows(session, session.windows.len())
}

/// The call that gives the focus to the pane at the given positions, where
/// there is one.
pub open spec fn focus_calls(
    session: SessionView,
    window_base: nat,
    pane_base: nat,
    target: Option<(int, int)>,
) -> Seq<CallView> {
    match target {
        Some((w, p)) => seq![
            CallView::SelectPane(
                pane_id_at(session.name, (window_base + w) as nat, (pane_base + p) as nat),
            ),
        ],
        None => Seq::empty(),
    }
}

/// All the calls that build a session that does not exist yet: the session
/// itself, every window with its panes, the focus, and at last the switch of
/// the terminal to the new session.
pub open spec fn creation_calls(
    session: SessionView,
    window_base: nat,
    pane_base: nat,
) -> Seq<CallView> {
    seq![CallView::NewSession(session.name, initial_directory(session))] + windows_calls(
        session,
        window_base,
        pane_base,
        session.windows.len(),
    ) + focus_calls(session, window_base, pane_base, focus(session)) + seq![
        CallView::SwitchToSession(session.name),
    ]
}

/// What is reported of a session that was built: each window's index with
/// the indices of its panes.
pub open spec fn report(session: SessionView, window_base: nat, pane_base: nat) -> Seq<
    (nat, Seq<nat>),
> {
    Seq::new(
        session.windows.len(),
        |w: int|
            (
                (window_base + w) as nat,
                Seq::new(session.windows[w].panes.len(), |p: int| (pane_base + p) as nat),
            ),
    )
}

/// Whether `count` indices that start at `base` are all numbers the machine
/// can hold.
pub open spec fn indices_in_range(base: nat, count: nat) -> bool {
    count > 0 ==> base + count - 1 <= usize::MAX
}

/// Whether the index of every window and pane is a number the machine can
/// hold.
pub open spec fn indices_fit(session: SessionView, window_base: nat, pane_base: nat) -> bool {
    &&& indices_in_range(window_base, session.windows.len())
    &&& forall|w: int|
        0 <= w < session.windows.len() ==> indices_in_range(
            pane_base,
            (#[trigger] session.windows[w]).panes.len(),
        )
}

/// What the reconciler hands back.
pub struct OutputView {
    pub session_name: Seq<char>,
    pub is_new_session: bool,
    pub windows: Seq<(nat, Seq<nat>)>,
}

/// What the backend answers in the course of one reconciliation. The two
/// options are only asked for where the session does not exist, and the
/// second only where the first was understood.
pub struct Replies {
    pub found: bool,
    pub window_base: Result<Seq<char>, ErrorView>,
    pub pane_base: Result<Seq<char>, ErrorView>,
}

/// The base index that an answer of the backend denotes. An answer that is
/// an error, or no number, is a failure to set up the base indices; the
/// detail is the sentence of the error or of the reading failure.
pub open spec fn base_index(reply: Result<Seq<char>, ErrorView>) -> Result<nat, ErrorView> {
    match reply {
        Err(error) => Err(ErrorView::BaseIdsError(error_text(error))),
        Ok(text) => match read_index(text, usize::MAX as nat) {
            Ok(index) => Ok(index),
            Err(failure) => Err(ErrorView::BaseIdsError(failure_text(failure))),
        },
    }
}

/// The failure reported where the base indices are numbers, but so large
/// that the index of some window or pane is more than the machine can hold.
pub open spec fn indices_too_large() -> ErrorView {
    ErrorView::BaseIdsError(failure_text(ParseFailure::TooLarge))
}

/// The two base indices, where both answers are understood and every index
/// fits; the failure to report otherwise.
pub open spec fn base_indices(session: SessionView, replies: Replies) -> Result<
    (nat, nat),
    ErrorView,
> {
    match base_index(replies.window_base) {
        Err(error) => Err(error),
        Ok(window_base) => match base_index(replies.pane_base) {
            Err(error) => Err(error),
            Ok(pane_base) => if indices_fit(session, window_base, pane_base) {
                Ok((window_base, pane_base))
            } else {
                Err(indices_too_large())
            },
        },
    }
}

/// The questions about the base indices, with their answers: first the
/// window base, then, where that answer was understood, the pane base.
pub open spec fn index_questions(replies: Replies) -> Seq<CallView> {
    let first = seq![CallView::GetOption(window_base_option(), replies.window_base)];
    if base_index(replies.window_base) is Err {
        first
    } else {
        first.push(CallView::GetOption(pane_base_option(), replies.pane_base))
    }
}

/// The questions put to the backend before anything is changed, with their
/// answers: whether the session exists and, where it does not, what the base
/// indices are.
pub open spec fn questions(session: SessionView, replies: Replies) -> Seq<CallView> {
    let asked = seq![CallView::HasSession(session.name, replies.found)];
    if replies.found {
        asked
    } else {
        asked + index_questions(replies)
    }
}

/// Every call of one reconciliation, in order. A session that exists is
/// switched to and left as it is. One that does not is built, unless the
/// base indices cannot be had: then nothing at all is changed.
pub open spec fn reconciliation(session: SessionView, replies: Replies) -> Seq<CallView> {
    if replies.found {
        questions(session, replies).push(CallView::SwitchToSession(session.name))
    } else {
        match base_indices(session, replies) {
            Err(_) => questions(session, replies),
            Ok((window_base, pane_base)) => questions(session, replies) + creation_calls(
                session,
                window_base,
                pane_base,
            ),
        }
    }
}

/// What one reconciliation hands back.
pub open spec fn outcome(session: SessionView, replies: Replies) -> Result<OutputView, ErrorView> {
    if replies.found {
        Ok(OutputView { session_name: session.name, is_new_session: false, windows: Seq::empty() })
    } else {
        match base_indices(session, replies) {
            Err(error) => Err(error),
            Ok((window_base, pane_base)) => Ok(
                OutputView {
                    session_name: session.name,
                    is_new_session: true,
                    windows: report(session, window_base, pane_base),
                },
            ),
        }
    }
}

} // verus!
