//! The reconciler: it asks the backend whether the session exists, switches
//! to it if it does, and builds it window by window if it does not.

use super::client::{reply_view, CallView, Client};
use super::directory::{directory_to_string, resolve_directory};
use super::error::{Error, ErrorView};
use super::ids::{
    Keys, OptionName, OptionValue, PaneID, PaneIdView, SessionId, WindowID, WindowName,
};
use super::plan::{
    base_index, base_indices, creation_calls, focus, focus_calls, focus_in_window,
    focus_in_windows, index_questions, indices_fit, indices_in_range, outcome, pane_calls,
    pane_id_at, panes_calls, reconciliation, report, window_id_at, window_opening, windows_calls,
    OutputView, Replies,
};
use crate::config::{Session, SessionView};
use crate::text::{decimal_string, parse_index, ParseFailure};
use vstd::prelude::*;
use vstd::string::*;

verus! {

/// What a reconciliation reports.
pub struct Output {
    /// The name of the session.
    pub session_name: String,
    /// Whether the session was built, or found and switched to.
    pub is_new_session: bool,
    /// The index of each window that was built, with the indices of its panes.
    pub windows: Vec<(usize, Vec<usize>)>,
}

/// A list of window indices with their pane indices, as plain values.
pub open spec fn report_view(windows: Seq<(usize, Vec<usize>)>) -> Seq<(nat, Seq<nat>)> {
    Seq::new(
        windows.len(),
        |w: int|
            (
                windows[w].0 as nat,
                Seq::new(windows[w].1@.len(), |p: int| windows[w].1@[p] as nat),
            ),
    )
}

impl View for Output {
    type V = OutputView;

    open spec fn view(&self) -> OutputView {
        OutputView {
            session_name: self.session_name@,
            is_new_session: self.is_new_session,
            windows: report_view(self.windows@),
        }
    }
}

/// The result of a reconciliation as plain values.
pub open spec fn result_view(result: Result<Output, Error>) -> Result<OutputView, ErrorView> {
    match result {
        Ok(output) => Ok(output@),
        Err(error) => Err(error@),
    }
}

/// The result of reading a base index as plain values.
pub open spec fn base_index_view(index: Result<usize, Error>) -> Result<nat, ErrorView> {
    match index {
        Ok(value) => Ok(value as nat),
        Err(error) => Err(error@),
    }
}

/// The result of reading both base indices as plain values.
pub open spec fn base_indices_view(indices: Result<(usize, usize), Error>) -> Result<
    (nat, nat),
    ErrorView,
> {
    match indices {
        Ok((window_base, pane_base)) => Ok((window_base as nat, pane_base as nat)),
        Err(error) => Err(error@),
    }
}

/// Reads a base index from what the backend answered when asked for the
/// option.
pub fn read_base_index(reply: Result<OptionValue, Error>) -> (index: Result<usize, Error>)
    ensures
        base_index_view(index) == base_index(reply_view(reply)),
{
    match reply {
        Err(error) => Err(Error::BaseIdsError(error.to_string())),
        Ok(value) => match parse_index(value.value()) {
            Ok(index) => Ok(index),
            Err(failure) => Err(Error::BaseIdsError(failure.message())),
        },
    }
}

/// Whether `count` indices that start at `base` can all be held.
fn in_range(base: usize, count: usize) -> (fits: bool)
    ensures
        fits == indices_in_range(base as nat, count as nat),
{
    count == 0 || base <= usize::MAX - (count - 1)
}

/// Whether the index of every window and pane of the session can be held,
/// counting from the two base indices.
pub fn all_indices_fit(session: &Session, window_base: usize, pane_base: usize) -> (fits: bool)
    ensures
        fits == indices_fit(session@, window_base as nat, pane_base as nat),
{
    if !in_range(window_base, session.windows.len()) {
        return false;
    }
    let mut w: usize = 0;
    while w < session.windows.len()
        invariant
            w <= session.windows.len(),
            forall|v: int|
                0 <= v < w ==> indices_in_range(
                    pane_base as nat,
                    (#[trigger] session@.windows[v]).panes.len(),
                ),
        decreases session.windows.len() - w,
    {
        if !in_range(pane_base, session.windows[w].panes.len()) {
            assert(!indices_in_range(
                pane_base as nat,
                session@.windows[w as int].panes.len(),
            ));
            return false;
        }
        w = w + 1;
    }
    true
}

/// Reconciles declared sessions with the backend behind a client.
pub struct Muxer<C: Client> {
    client: C,
}

/// What is true of the client's history before and after a reconciliation
/// in which the backend gave the answers `replies`: the calls of the
/// reconciliation were added to the history, and `result` is its outcome.
pub open spec fn reconciled(
    before: Seq<CallView>,
    after: Seq<CallView>,
    session: SessionView,
    result: Result<OutputView, ErrorView>,
    replies: Replies,
) -> bool {
    &&& after == before + reconciliation(session, replies)
    &&& result == outcome(session, replies)
}

/// The address of the pane at the given positions, if any.
spec fn focus_target(
    session: Seq<char>,
    window_base: nat,
    pane_base: nat,
    target: Option<(int, int)>,
) -> Option<PaneIdView> {
    match target {
        Some((w, p)) => Some(pane_id_at(session, (window_base + w) as nat, (pane_base + p) as nat)),
        None => None,
    }
}

/// The address of an optional pane as plain values.
spec fn optional_pane(pane: Option<PaneID>) -> Option<PaneIdView> {
    match pane {
        Some(id) => Some(id@),
        None => None,
    }
}

impl<C: Client> Muxer<C> {
    /// The client through which the backend is reached.
    pub closed spec fn backend(&self) -> C {
        self.client
    }

    /// A reconciler that reaches the backend through `client`.
    pub fn new(client: C) -> (muxer: Self)
        ensures
            muxer.backend() == client,
    {
        Self { client }
    }

    /// The client through which the backend is reached.
    pub fn client(&self) -> (client: &C)
        ensures
            *client == self.backend(),
    {
        &self.client
    }

    /// Makes the backend hold the session: switches to it where it exists,
    /// builds it and then switches to it where it does not. A session is
    /// only built once both base indices are known; where they cannot be
    /// had, or are so large that an index would not fit the machine word,
    /// the reconciliation fails before anything is changed.
    ///
    /// Whatever the backend answers, the calls made are those of
    /// [`reconciliation`] for these answers and the result is their
    /// [`outcome`]. In particular the report carries the session's name,
    /// and the only failure is `BaseIdsError`.
    pub fn apply(&mut self, session: &Session) -> (result: Result<Output, Error>)
        ensures
            exists|replies: Replies| #[trigger]
                reconciled(
                    old(self).backend().history(),
                    final(self).backend().history(),
                    session@,
                    result_view(result),
                    replies,
                ),
            result matches Ok(output) ==> output.session_name@ == session@.name,
            result matches Err(error) ==> error is BaseIdsError,
    {
        let ghost before = self.backend().history();
        let session_id = SessionId::new(session.name.as_str());
        let found = self.client.has_session(&session_id);
        let ghost replies;
        let result = if found {
            self.client.switch_to_session(&session_id);
            let windows: Vec<(usize, Vec<usize>)> = Vec::new();
            proof {
                replies = Replies {
                    found: true,
                    window_base: Ok(Seq::empty()),
                    pane_base: Ok(Seq::empty()),
                };
                assert(report_view(windows@) =~= Seq::empty());
            }
            Ok(Output { session_name: session.name.clone(), is_new_session: false, windows })
        } else {
            let (indices, Ghost(answers)) = self.setup_base_ids(session);
            proof {
                replies = answers;
            }
            match indices {
                Err(error) => Err(error),
                Ok((window_base, pane_base)) => {
                    let windows = self.create(session, window_base, pane_base);
                    Ok(Output { session_name: session.name.clone(), is_new_session: true, windows })
                },
            }
        };
        proof {
            assert(self.backend().history() =~= before + reconciliation(session@, replies));
            assert(reconciled(
                before,
                self.backend().history(),
                session@,
                result_view(result),
                replies,
            ));
        }
        result
    }

    /// Asks the backend for the two base indices and sees that every index
    /// of the session fits the machine word when counted from them.
    fn setup_base_ids(&mut self, session: &Session) -> (answer: (
        Result<(usize, usize), Error>,
        Ghost<Replies>,
    ))
        ensures
            !answer.1@.found,
            final(self).client.history() == old(self).client.history() + index_questions(
                answer.1@,
            ),
            base_indices_view(answer.0) == base_indices(session@, answer.1@),
    {
        let (window_index, Ghost(window_reply)) = self.get_index("base-index");
        let window_base = match window_index {
            Ok(index) => index,
            Err(error) => {
                let ghost replies = Replies {
                    found: false,
                    window_base: window_reply,
                    pane_base: Ok(Seq::empty()),
                };
                return (Err(error), Ghost(replies));
            },
        };
        let (pane_index, Ghost(pane_reply)) = self.get_index("pane-base-index");
        let ghost replies = Replies {
            found: false,
            window_base: window_reply,
            pane_base: pane_reply,
        };
        let pane_base = match pane_index {
            Ok(index) => index,
            Err(error) => {
                return (Err(error), Ghost(replies));
            },
        };
        if all_indices_fit(session, window_base, pane_base) {
            (Ok((window_base, pane_base)), Ghost(replies))
        } else {
            (Err(Error::BaseIdsError(ParseFailure::TooLarge.message())), Ghost(replies))
        }
    }

    /// Asks the backend for an option and reads the answer as a base index.
    fn get_index(&mut self, name: &str) -> (answer: (
        Result<usize, Error>,
        Ghost<Result<Seq<char>, ErrorView>>,
    ))
        ensures
            final(self).client.history() == old(self).client.history().push(
                CallView::GetOption(name@, answer.1@),
            ),
            base_index_view(answer.0) == base_index(answer.1@),
    {
        let reply = self.client.get_option(&OptionName::new(name));
        let ghost answered = reply_view(reply);
        (read_base_index(reply), Ghost(answered))
    }

    /// Builds the session without asking the backend anything: the session
    /// itself with its first window and pane, then every further window and
    /// pane, then the focus and the switch to the session. Windows count
    /// from `window_base` and panes from `pane_base`, and every index has to
    /// fit the machine word: [`all_indices_fit`] tells whether they do. The
    /// result lists the index of each window with those of its panes.
    pub fn create(&mut self, session: &Session, window_base: usize, pane_base: usize) -> (windows:
        Vec<(usize, Vec<usize>)>)
        requires
            indices_fit(session@, window_base as nat, pane_base as nat),
        ensures
            final(self).backend().history() == old(self).backend().history() + creation_calls(
                session@,
                window_base as nat,
                pane_base as nat,
            ),
            report_view(windows@) == report(session@, window_base as nat, pane_base as nat),
    {
        let ghost plan = session@;
        let ghost wb = window_base as nat;
        let ghost pb = pane_base as nat;
        let session_id = SessionId::new(session.name.as_str());
        let first_directory = if session.windows.len() > 0 {
            window_directory(session, 0)
        } else {
            directory_to_string(resolve_directory(&session.directory, &None, &None))
        };
        self.client.new_session(&session_id, first_directory.as_str());
        let ghost started = self.client.history();

        let mut windows: Vec<(usize, Vec<usize>)> = Vec::new();
        let mut focus_pane: Option<PaneID> = None;
        let mut w: usize = 0;
        while w < session.windows.len()
            invariant
                w <= session.windows.len(),
                plan == session@,
                wb == window_base as nat,
                pb == pane_base as nat,
                session_id@ == plan.name,
                indices_fit(plan, wb, pb),
                self.client.history() == started + windows_calls(plan, wb, pb, w as nat),
                optional_pane(focus_pane) == focus_target(
                    plan.name,
                    wb,
                    pb,
                    focus_in_windows(plan, w as nat),
                ),
                windows@.len() == w,
                report_view(windows@) == report(plan, wb, pb).take(w as int),
            decreases session.windows.len() - w,
        {
            let window = &session.windows[w];
            if w > 0 {
                self.client.new_window(&session_id, window_directory(session, w).as_str());
            }
            let widx = window_base + w;
            let window_id = WindowID::new(&session_id, decimal_string(widx).as_str());
            match &window.name {
                Some(name) => {
                    self.client.rename_window(&window_id, &WindowName::new(name.as_str()));
                },
                None => {},
            }
            let panes = self.create_panes(
                session,
                w,
                window_base,
                pane_base,
                &window_id,
                &mut focus_pane,
            );
            let ghost reported = windows@;
            windows.push((widx, panes));
            assert(report_view(windows@) =~= report(plan, wb, pb).take(w + 1)) by {
                assert forall|v: int| 0 <= v <= w implies report_view(windows@)[v] == report(
                    plan,
                    wb,
                    pb,
                )[v] by {
                    if v < w {
                        assert(report_view(reported)[v] == report(plan, wb, pb).take(w as int)[v]);
                    }
                }
            }
            w = w + 1;
        }
        match focus_pane {
            Some(pane) => {
                self.client.select_pane(&pane);
            },
            None => {},
        }
        self.client.switch_to_session(&session_id);
        windows
    }

    /// Sees to the panes of the window at position `w`, which exists by
    /// now: splits off every pane but the first, types each pane's command,
    /// and notes in `focus_pane` the last pane that asks for the focus, if
    /// any does. The result lists the indices of the panes.
    fn create_panes(
        &mut self,
        session: &Session,
        w: usize,
        window_base: usize,
        pane_base: usize,
        window_id: &WindowID,
        focus_pane: &mut Option<PaneID>,
    ) -> (panes: Vec<usize>)
        requires
            w < session.windows@.len(),
            window_base + w <= usize::MAX,
            indices_in_range(pane_base as nat, session@.windows[w as int].panes.len()),
            window_id@ == window_id_at(session@.name, (window_base + w) as nat),
        ensures
            final(self).client.history() == old(self).client.history() + panes_calls(
                session@,
                window_base as nat,
                pane_base as nat,
                w as int,
                session@.windows[w as int].panes.len(),
            ),
            optional_pane(*final(focus_pane)) == match focus_in_window(
                session@,
                w as int,
                session@.windows[w as int].panes.len(),
            ) {
                Some(p) => Some(
                    pane_id_at(session@.name, (window_base + w) as nat, (pane_base + p) as nat),
                ),
                None => optional_pane(*old(focus_pane)),
            },
            panes@.len() == session@.windows[w as int].panes.len(),
            forall|p: int| 0 <= p < panes@.len() ==> #[trigger] panes@[p] == pane_base + p,
    {
        let ghost before = self.client.history();
        let ghost plan = session@;
        let ghost wb = window_base as nat;
        let ghost pb = pane_base as nat;
        let window = &session.windows[w];
        let mut panes: Vec<usize> = Vec::new();
        let mut p: usize = 0;
        while p < window.panes.len()
            invariant
                p <= window.panes.len(),
                plan == session@,
                w < session.windows@.len(),
                *window == session.windows@[w as int],
                window@ == plan.windows[w as int],
                wb == window_base as nat,
                pb == pane_base as nat,
                wb + w <= usize::MAX,
                indices_in_range(pb, window.panes@.len()),
                window_id@ == window_id_at(plan.name, (wb + w) as nat),
                self.client.history() == before + panes_calls(plan, wb, pb, w as int, p as nat),
                optional_pane(*focus_pane) == match focus_in_window(plan, w as int, p as nat) {
                    Some(q) => Some(pane_id_at(plan.name, (wb + w) as nat, (pb + q) as nat)),
                    None => optional_pane(*old(focus_pane)),
                },
                panes@.len() == p,
                forall|q: int| 0 <= q < p ==> #[trigger] panes@[q] == pb + q,
            decreases window.panes.len() - p,
        {
            let pane = &window.panes[p];
            let pidx = pane_base + p;
            let pane_id = PaneID::new(window_id, decimal_string(pidx).as_str());
            if pane.focus {
                *focus_pane = Some(pane_id.clone());
            }
            if p > 0 {
                let directory = resolve_directory(
                    &session.directory,
                    &window.directory,
                    &pane.directory,
                );
                self.client.new_pane(window_id, directory_to_string(directory).as_str());
            }
            match &pane.command {
                Some(command) => {
                    self.client.send_keys(&pane_id, Keys::new(command.as_str()));
                },
                None => {},
            }
            panes.push(pidx);
            p = p + 1;
        }
        panes
    }
}

/// The directory in which the window at position `w` is opened: the one in
/// which its first pane starts.
fn window_directory(session: &Session, w: usize) -> (directory: String)
    requires
        w < session.windows@.len(),
    ensures
        directory@ == super::plan::window_directory(session@, w as int),
{
    let window = &session.windows[w];
    let none: Option<String> = None;
    let first_pane_directory = if window.panes.len() > 0 {
        &window.panes[0].directory
    } else {
        &none
    };
    directory_to_string(
        resolve_directory(&session.directory, &window.directory, first_pane_directory),
    )
}

} // verus!
