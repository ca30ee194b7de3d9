//! What holds of every reconciliation, whatever the session and whatever
//! the backend answers.

use super::client::{is_mutating, CallView};
use super::directory::effective_directory;
use super::error::{error_text, ErrorView};
use super::ids::{window_address, WindowIdView};
use super::plan::{
    base_index, base_indices, creation_calls, focus, focus_calls, focus_in_window, focus_in_windows,
    initial_directory, outcome, pane_calls, pane_directory, pane_id_at, panes_calls,
    reconciliation, report, window_base_option, window_calls, window_directory, window_id_at,
    window_opening, windows_calls, OutputView, Replies,
};
use crate::config::SessionView;
use crate::text::{decimal, lemma_decimal_injective, lemma_read_decimal};
use vstd::prelude::*;

verus! {

/// A session that exists is switched to and nothing else: the backend is
/// asked once whether the session exists, is told once to switch to it, and
/// the report says that nothing was built.
pub proof fn law_existing_session_is_only_switched_to(session: SessionView, replies: Replies)
    requires
        replies.found,
    ensures
        reconciliation(session, replies) == seq![
            CallView::HasSession(session.name, true),
            CallView::SwitchToSession(session.name),
        ],
        outcome(session, replies) == Ok::<OutputView, ErrorView>(
            OutputView {
                session_name: session.name,
                is_new_session: false,
                windows: Seq::empty(),
            },
        ),
{
}

/// Where the session does not exist and the base indices cannot be had,
/// the reconciliation fails with `BaseIdsError` and has changed nothing: the
/// backend was only asked questions.
pub proof fn law_failed_base_indices_change_nothing(session: SessionView, replies: Replies)
    requires
        !replies.found,
        base_indices(session, replies) is Err,
    ensures
        outcome(session, replies) is Err,
        outcome(session, replies)->Err_0 is BaseIdsError,
        forall|i: int|
            0 <= i < reconciliation(session, replies).len() ==> !is_mutating(
                #[trigger] reconciliation(session, replies)[i],
            ),
{
}

/// Where the backend does not know the option of the window base index,
/// the reconciliation ends there: the failure carries the sentence of the
/// backend's error, and the only calls are the two questions.
pub proof fn law_missing_window_base_stops_the_reconciliation(
    session: SessionView,
    replies: Replies,
)
    requires
        !replies.found,
        replies.window_base is Err,
    ensures
        outcome(session, replies) == Err::<OutputView, ErrorView>(
            ErrorView::BaseIdsError(error_text(replies.window_base->Err_0)),
        ),
        reconciliation(session, replies) == seq![
            CallView::HasSession(session.name, false),
            CallView::GetOption(window_base_option(), replies.window_base),
        ],
{
}

/// The nearest directory wins: a pane's own directory over everything, a
/// window's over the session's, and the current directory where there is
/// none at all.
pub proof fn law_directory_precedence(
    session: Option<Seq<char>>,
    window: Option<Seq<char>>,
    pane: Option<Seq<char>>,
)
    ensures
        pane is Some ==> effective_directory(session, window, pane) == pane->Some_0,
        pane is None && window is Some ==> effective_directory(session, window, pane)
            == window->Some_0,
        pane is None && window is None && session is Some ==> effective_directory(
            session,
            window,
            pane,
        ) == session->Some_0,
        pane is None && window is None && session is None ==> effective_directory(
            session,
            window,
            pane,
        ) == "."@,
{
}

/// Every pane that is split off starts in its effective directory, and
/// every window that is opened in that of its first pane, or in its own
/// where it has no pane.
pub proof fn law_creation_uses_the_effective_directory(
    session: SessionView,
    window_base: nat,
    pane_base: nat,
    w: int,
    p: int,
)
    requires
        0 < w < session.windows.len(),
        0 < p < session.windows[w].panes.len(),
    ensures
        pane_calls(session, window_base, pane_base, w, p)[0] == CallView::NewPane(
            window_id_at(session.name, (window_base + w) as nat),
            effective_directory(
                session.directory,
                session.windows[w].directory,
                session.windows[w].panes[p].directory,
            ),
        ),
        window_opening(session, window_base, w)[0] == CallView::NewWindow(
            session.name,
            effective_directory(
                session.directory,
                session.windows[w].directory,
                session.windows[w].panes[0].directory,
            ),
        ),
{
}

/// Windows and panes are numbered from the base indices: the window at
/// position `w` has the index `window_base + w`, and its pane at position
/// `p` the index `pane_base + p`. The report lists exactly these.
pub proof fn law_indices_count_from_the_bases(
    session: SessionView,
    window_base: nat,
    pane_base: nat,
    w: int,
    p: int,
)
    requires
        0 <= w < session.windows.len(),
        0 <= p < session.windows[w].panes.len(),
    ensures
        report(session, window_base, pane_base).len() == session.windows.len(),
        report(session, window_base, pane_base)[w].0 == window_base + w,
        report(session, window_base, pane_base)[w].1.len() == session.windows[w].panes.len(),
        report(session, window_base, pane_base)[w].1[p] == pane_base + p,
{
}

/// What a backend writes in decimal is understood: the answer `decimal(n)`
/// denotes the base index `n`, as long as `n` fits the machine word.
pub proof fn law_decimal_answers_are_understood(n: nat)
    requires
        n <= usize::MAX,
    ensures
        base_index(Ok(decimal(n))) == Ok::<nat, ErrorView>(n),
{
    lemma_read_decimal(n, usize::MAX as nat);
}

/// An address tells the position it was composed from: after the same owner
/// and separator, two different position texts give two different addresses.
pub proof fn lemma_composed_addresses_differ(
    owner: Seq<char>,
    separator: char,
    first: Seq<char>,
    second: Seq<char>,
)
    requires
        first != second,
    ensures
        owner + seq![separator] + first != owner + seq![separator] + second,
{
    let a = owner + seq![separator] + first;
    let b = owner + seq![separator] + second;
    if a == b {
        assert(b.len() == owner.len() + 1 + second.len());
        assert forall|i: int| 0 <= i < first.len() implies first[i] == second[i] by {
            assert(b[owner.len() + 1 + i] == second[i]);
        }
        assert(first =~= second);
    }
}

/// Within one session, windows at different indices have different
/// addresses.
pub proof fn law_window_addresses_differ(session: Seq<char>, first: nat, second: nat)
    requires
        first != second,
    ensures
        window_id_at(session, first).address != window_id_at(session, second).address,
        window_id_at(session, first) != window_id_at(session, second),
{
    if decimal(first) == decimal(second) {
        lemma_decimal_injective(first, second);
    }
    lemma_composed_addresses_differ(session, ':', decimal(first), decimal(second));
}

/// Within one window, panes at different indices have different addresses.
pub proof fn law_pane_addresses_differ(session: Seq<char>, window: nat, first: nat, second: nat)
    requires
        first != second,
    ensures
        pane_id_at(session, window, first).address != pane_id_at(session, window, second).address,
        pane_id_at(session, window, first) != pane_id_at(session, window, second),
{
    if decimal(first) == decimal(second) {
        lemma_decimal_injective(first, second);
    }
    lemma_composed_addresses_differ(
        window_address(session, decimal(window)),
        '.',
        decimal(first),
        decimal(second),
    );
}

/// Whether the pane at position `p` of the window at position `w` is there
/// and asks for the focus.
pub open spec fn asks_focus(session: SessionView, w: int, p: int) -> bool {
    &&& 0 <= w < session.windows.len()
    &&& 0 <= p < session.windows[w].panes.len()
    &&& session.windows[w].panes[p].focus
}

/// Whether the pane at (`w`, `p`) is seen to after the one at (`v`, `q`).
pub open spec fn comes_after(w: int, p: int, v: int, q: int) -> bool {
    w > v || (w == v && p > q)
}

/// Among the first `count` panes of a window, the chosen pane is the last
/// that asks for the focus.
proof fn lemma_focus_in_window(session: SessionView, w: int, count: nat)
    requires
        0 <= w < session.windows.len(),
        count <= session.windows[w].panes.len(),
    ensures
        match focus_in_window(session, w, count) {
            Some(p) => 0 <= p < count && asks_focus(session, w, p) && forall|q: int|
                p < q < count ==> !asks_focus(session, w, q),
            None => forall|q: int| 0 <= q < count ==> !asks_focus(session, w, q),
        },
    decreases count,
{
    if count > 0 {
        lemma_focus_in_window(session, w, (count - 1) as nat);
    }
}

/// Among the panes of the first `count` windows, the chosen pane is the
/// last that asks for the focus.
proof fn lemma_focus_in_windows(session: SessionView, count: nat)
    requires
        count <= session.windows.len(),
    ensures
        match focus_in_windows(session, count) {
            Some((w, p)) => 0 <= w < count && asks_focus(session, w, p) && forall|v: int, q: int|
                0 <= v < count && asks_focus(session, v, q) ==> !comes_after(v, q, w, p),
            None => forall|v: int, q: int| 0 <= v < count ==> !asks_focus(session, v, q),
        },
    decreases count,
{
    if count > 0 {
        lemma_focus_in_windows(session, (count - 1) as nat);
        lemma_focus_in_window(session, count - 1, session.windows[count - 1].panes.len());
    }
}

/// The last pane that asks for the focus gets it: the pane that is chosen
/// asks for the focus and no pane after it does; and none is chosen only
/// where no pane asks.
pub proof fn law_last_focus_wins(session: SessionView)
    ensures
        match focus(session) {
            Some((w, p)) => asks_focus(session, w, p) && forall|v: int, q: int|
                asks_focus(session, v, q) ==> !comes_after(v, q, w, p),
            None => forall|v: int, q: int| !asks_focus(session, v, q),
        },
{
    lemma_focus_in_windows(session, session.windows.len());
}

/// How many of the calls are of the wanted sort.
pub open spec fn count(calls: Seq<CallView>, wanted: spec_fn(CallView) -> bool) -> nat
    decreases calls.len(),
{
    if calls.len() == 0 {
        0
    } else {
        count(calls.drop_last(), wanted) + if wanted(calls.last()) {
            1nat
        } else {
            0nat
        }
    }
}

/// The calls that create a session.
pub open spec fn creates_session() -> spec_fn(CallView) -> bool {
    |call: CallView| call is NewSession
}

/// The calls that open a window.
pub open spec fn opens_window() -> spec_fn(CallView) -> bool {
    |call: CallView| call is NewWindow
}

/// The calls that split a pane off in the given window.
pub open spec fn splits(window: WindowIdView) -> spec_fn(CallView) -> bool {
    |call: CallView| call is NewPane && call->NewPane_0 == window
}

/// The calls that give the focus to a pane.
pub open spec fn selects_pane() -> spec_fn(CallView) -> bool {
    |call: CallView| call is SelectPane
}

/// Counting goes through concatenation.
pub proof fn lemma_count_add(a: Seq<CallView>, b: Seq<CallView>, wanted: spec_fn(CallView) -> bool)
    ensures
        count(a + b, wanted) == count(a, wanted) + count(b, wanted),
    decreases b.len(),
{
    if b.len() > 0 {
        assert((a + b).drop_last() =~= a + b.drop_last());
        lemma_count_add(a, b.drop_last(), wanted);
    }
}

/// A single call counts once if it is wanted.
pub proof fn lemma_count_one(call: CallView, wanted: spec_fn(CallView) -> bool)
    ensures
        count(seq![call], wanted) == if wanted(call) {
            1nat
        } else {
            0nat
        },
{
    assert(count(seq![call].drop_last(), wanted) == 0);
}

/// The number of panes split off for `panes` panes of one window, or of
/// windows opened for as many windows of one session: all but the first.
pub open spec fn all_but_first(panes: nat) -> nat {
    if panes == 0 {
        0
    } else {
        (panes - 1) as nat
    }
}

/// The calls for one pane hold a split in its own window if it is not the
/// first pane, and nothing else that is counted here.
proof fn lemma_pane_calls_counts(
    session: SessionView,
    window_base: nat,
    pane_base: nat,
    w: int,
    p: int,
    window: WindowIdView,
)
    requires
        0 <= w,
        0 <= p,
    ensures
        count(pane_calls(session, window_base, pane_base, w, p), creates_session()) == 0,
        count(pane_calls(session, window_base, pane_base, w, p), opens_window()) == 0,
        count(pane_calls(session, window_base, pane_base, w, p), selects_pane()) == 0,
        count(pane_calls(session, window_base, pane_base, w, p), splits(window)) == if p > 0
            && window == window_id_at(session.name, (window_base + w) as nat) {
            1nat
        } else {
            0nat
        },
{
    let pane = session.windows[w].panes[p];
    let split = CallView::NewPane(
        window_id_at(session.name, (window_base + w) as nat),
        pane_directory(session, w, p),
    );
    let front = if p > 0 {
        seq![split]
    } else {
        Seq::empty()
    };
    let back = match pane.command {
        Some(command) => seq![
            CallView::SendKeys(
                pane_id_at(session.name, (window_base + w) as nat, (pane_base + p) as nat),
                command,
            ),
        ],
        None => Seq::empty(),
    };
    lemma_count_add(front, back, creates_session());
    lemma_count_add(front, back, opens_window());
    lemma_count_add(front, back, selects_pane());
    lemma_count_add(front, back, splits(window));
    if p > 0 {
        lemma_count_one(split, creates_session());
        lemma_count_one(split, opens_window());
        lemma_count_one(split, selects_pane());
        lemma_count_one(split, splits(window));
    }
    if pane.command is Some {
        let typed = back[0];
        lemma_count_one(typed, creates_session());
        lemma_count_one(typed, opens_window());
        lemma_count_one(typed, selects_pane());
        lemma_count_one(typed, splits(window));
    }
}

/// The calls for the first `panes` panes of a window hold one split in that
/// window for each pane but the first.
proof fn lemma_panes_calls_counts(
    session: SessionView,
    window_base: nat,
    pane_base: nat,
    w: int,
    panes: nat,
    window: WindowIdView,
)
    requires
        0 <= w,
    ensures
        count(panes_calls(session, window_base, pane_base, w, panes), creates_session()) == 0,
        count(panes_calls(session, window_base, pane_base, w, panes), opens_window()) == 0,
        count(panes_calls(session, window_base, pane_base, w, panes), selects_pane()) == 0,
        count(panes_calls(session, window_base, pane_base, w, panes), splits(window)) == if window
            == window_id_at(session.name, (window_base + w) as nat) {
            all_but_first(panes)
        } else {
            0nat
        },
    decreases panes,
{
    if panes > 0 {
        let earlier = panes_calls(session, window_base, pane_base, w, (panes - 1) as nat);
        let last = pane_calls(session, window_base, pane_base, w, panes - 1);
        lemma_panes_calls_counts(session, window_base, pane_base, w, (panes - 1) as nat, window);
        lemma_pane_calls_counts(session, window_base, pane_base, w, panes - 1, window);
        lemma_count_add(earlier, last, creates_session());
        lemma_count_add(earlier, last, opens_window());
        lemma_count_add(earlier, last, selects_pane());
        lemma_count_add(earlier, last, splits(window));
    }
}

/// The calls for one window open it if it is not the first window, and
/// split off each of its panes but the first.
proof fn lemma_window_calls_counts(
    session: SessionView,
    window_base: nat,
    pane_base: nat,
    w: int,
    window: WindowIdView,
)
    requires
        0 <= w,
    ensures
        count(window_calls(session, window_base, pane_base, w), creates_session()) == 0,
        count(window_calls(session, window_base, pane_base, w), opens_window()) == if w > 0 {
            1nat
        } else {
            0nat
        },
        count(window_calls(session, window_base, pane_base, w), selects_pane()) == 0,
        count(window_calls(session, window_base, pane_base, w), splits(window)) == if window
            == window_id_at(session.name, (window_base + w) as nat) {
            all_but_first(session.windows[w].panes.len())
        } else {
            0nat
        },
{
    let opened = CallView::NewWindow(session.name, window_directory(session, w));
    let front = if w > 0 {
        seq![opened]
    } else {
        Seq::empty()
    };
    let back = match session.windows[w].name {
        Some(name) => seq![
            CallView::RenameWindow(window_id_at(session.name, (window_base + w) as nat), name),
        ],
        None => Seq::empty(),
    };
    let opening = window_opening(session, window_base, w);
    let panes = panes_calls(session, window_base, pane_base, w, session.windows[w].panes.len());
    lemma_panes_calls_counts(
        session,
        window_base,
        pane_base,
        w,
        session.windows[w].panes.len(),
        window,
    );
    lemma_count_add(front, back, creates_session());
    lemma_count_add(front, back, opens_window());
    lemma_count_add(front, back, selects_pane());
    lemma_count_add(front, back, splits(window));
    lemma_count_add(opening, panes, creates_session());
    lemma_count_add(opening, panes, opens_window());
    lemma_count_add(opening, panes, selects_pane());
    lemma_count_add(opening, panes, splits(window));
    if w > 0 {
        lemma_count_one(opened, creates_session());
        lemma_count_one(opened, opens_window());
        lemma_count_one(opened, selects_pane());
        lemma_count_one(opened, splits(window));
    }
    if session.windows[w].name is Some {
        let renamed = back[0];
        lemma_count_one(renamed, creates_session());
        lemma_count_one(renamed, opens_window());
        lemma_count_one(renamed, selects_pane());
        lemma_count_one(renamed, splits(window));
    }
}

/// The calls for the first `windows` windows open each but the first, and
/// split off in the window at position `w`, if it is among them, each of its
/// panes but the first.
proof fn lemma_windows_calls_counts(
    session: SessionView,
    window_base: nat,
    pane_base: nat,
    windows: nat,
    w: int,
)
    requires
        0 <= w,
    ensures
        count(windows_calls(session, window_base, pane_base, windows), creates_session()) == 0,
        count(windows_calls(session, window_base, pane_base, windows), opens_window())
            == all_but_first(windows),
        count(windows_calls(session, window_base, pane_base, windows), selects_pane()) == 0,
        count(
            windows_calls(session, window_base, pane_base, windows),
            splits(window_id_at(session.name, (window_base + w) as nat)),
        ) == if w < windows {
            all_but_first(session.windows[w].panes.len())
        } else {
            0nat
        },
    decreases windows,
{
    if windows > 0 {
        let window = window_id_at(session.name, (window_base + w) as nat);
        let earlier = windows_calls(session, window_base, pane_base, (windows - 1) as nat);
        let last = window_calls(session, window_base, pane_base, windows - 1);
        lemma_windows_calls_counts(session, window_base, pane_base, (windows - 1) as nat, w);
        lemma_window_calls_counts(session, window_base, pane_base, windows - 1, window);
        if w != windows - 1 {
            law_window_addresses_differ(
                session.name,
                (window_base + w) as nat,
                (window_base + windows - 1) as nat,
            );
        }
        lemma_count_add(earlier, last, creates_session());
        lemma_count_add(earlier, last, opens_window());
        lemma_count_add(earlier, last, selects_pane());
        lemma_count_add(earlier, last, splits(window));
    }
}

/// Building a session creates it once, with the first window and that
/// window's first pane. Every window but the first is opened by exactly one
/// call, and in every window every pane but the first is split off by
/// exactly one call. The focus is given at most once: to the pane that
/// [`focus`] names, after everything is built and before the final switch.
pub proof fn law_one_call_creates_each_window_and_pane(
    session: SessionView,
    window_base: nat,
    pane_base: nat,
)
    ensures
        creation_calls(session, window_base, pane_base)[0] is NewSession,
        creation_calls(session, window_base, pane_base).last() == CallView::SwitchToSession(
            session.name,
        ),
        count(creation_calls(session, window_base, pane_base), creates_session()) == 1,
        count(creation_calls(session, window_base, pane_base), opens_window()) == all_but_first(
            session.windows.len(),
        ),
        forall|w: int|
            0 <= w < session.windows.len() ==> #[trigger] count(
                creation_calls(session, window_base, pane_base),
                splits(window_id_at(session.name, (window_base + w) as nat)),
            ) == all_but_first(session.windows[w].panes.len()),
        count(creation_calls(session, window_base, pane_base), selects_pane()) == if focus(session)
            is Some {
            1nat
        } else {
            0nat
        },
        focus(session) matches Some((w, p)) ==> {
            let calls = creation_calls(session, window_base, pane_base);
            calls[calls.len() - 2] == CallView::SelectPane(
                pane_id_at(session.name, (window_base + w) as nat, (pane_base + p) as nat),
            )
        },
{
    let created = seq![
        CallView::NewSession(session.name, initial_directory(session)),
    ];
    let built = windows_calls(session, window_base, pane_base, session.windows.len());
    let focused = focus_calls(session, window_base, pane_base, focus(session));
    let switched = seq![CallView::SwitchToSession(session.name)];
    let calls = creation_calls(session, window_base, pane_base);
    assert forall|wanted: spec_fn(CallView) -> bool|
        #[trigger] count(calls, wanted) == count(created, wanted) + count(built, wanted) + count(
            focused,
            wanted,
        ) + count(switched, wanted) by {
        lemma_count_add(created, built, wanted);
        lemma_count_add(created + built, focused, wanted);
        lemma_count_add(created + built + focused, switched, wanted);
    }
    assert forall|wanted: spec_fn(CallView) -> bool|
        #[trigger] count(created, wanted) == (if wanted(created[0]) {
            1nat
        } else {
            0nat
        }) && count(switched, wanted) == (if wanted(switched[0]) {
            1nat
        } else {
            0nat
        }) && count(focused, wanted) == (if focused.len() > 0 && wanted(focused[0]) {
            1nat
        } else {
            0nat
        }) by {
        lemma_count_one(created[0], wanted);
        lemma_count_one(switched[0], wanted);
        if focused.len() > 0 {
            lemma_count_one(focused[0], wanted);
        }
    }
    lemma_windows_calls_counts(session, window_base, pane_base, session.windows.len(), 0);
    assert forall|w: int| 0 <= w < session.windows.len() implies #[trigger] count(
        calls,
        splits(window_id_at(session.name, (window_base + w) as nat)),
    ) == all_but_first(session.windows[w].panes.len()) by {
        lemma_windows_calls_counts(session, window_base, pane_base, session.windows.len(), w);
    }
}

} // verus!
