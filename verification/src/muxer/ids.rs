//! Addresses of sessions, windows and panes, and the small texts that
//! travel with them.
//!
//! An address is composed once, from the owner's address and a position
//! text, and never changes: a window is `session:window`, a pane is
//! `session:window.pane`.

use vstd::prelude::*;
use vstd::string::*;

verus! {

/// The address of the window `index` of `session`.
pub open spec fn window_address(session: Seq<char>, index: Seq<char>) -> Seq<char> {
    session + seq![':'] + index
}

/// The address of the pane `index` of the window at address `window`.
pub open spec fn pane_address(window: Seq<char>, index: Seq<char>) -> Seq<char> {
    window + seq!['.'] + index
}

/// An address as the backend reads it.
#[derive(Debug, PartialEq)]
pub struct Id(String);

impl View for Id {
    type V = Seq<char>;

    closed spec fn view(&self) -> Seq<char> {
        self.0@
    }
}

impl Clone for Id {
    fn clone(&self) -> (copy: Id)
        ensures
            copy == *self,
    {
        Id(self.0.clone())
    }
}

impl Id {
    /// The address as text.
    pub fn to_string(&self) -> (text: String)
        ensures
            text@ == self@,
    {
        self.0.clone()
    }
}

/// The address of a session: its name, taken as it is.
#[derive(Debug, PartialEq)]
pub struct SessionId(Id);

impl View for SessionId {
    type V = Seq<char>;

    closed spec fn view(&self) -> Seq<char> {
        self.0@
    }
}

impl Clone for SessionId {
    fn clone(&self) -> (copy: SessionId)
        ensures
            copy == *self,
    {
        SessionId(self.0.clone())
    }
}

impl SessionId {
    /// Any name is accepted: whether it is a legal one is for the backend to
    /// say.
    pub fn new(session_id: &str) -> (id: SessionId)
        ensures
            id@ == session_id@,
    {
        SessionId(Id(String::from_str(session_id)))
    }

    /// The address of the session.
    pub fn id(&self) -> (id: &Id)
        ensures
            id@ == self@,
    {
        &self.0
    }

    /// The address as text.
    pub fn to_string(&self) -> (text: String)
        ensures
            text@ == self@,
    {
        self.0.to_string()
    }
}

/// A window address, and the session it belongs to.
pub struct WindowIdView {
    pub session: Seq<char>,
    pub address: Seq<char>,
}

impl WindowIdView {
    /// Whether the address is that of a window of the session: the
    /// session's address, a colon, and the window's position.
    pub open spec fn well_formed(self) -> bool {
        (self.session + seq![':']).is_prefix_of(self.address)
    }
}

/// The address of a window.
#[derive(Debug, PartialEq)]
pub struct WindowID(SessionId, Id);

impl View for WindowID {
    type V = WindowIdView;

    closed spec fn view(&self) -> WindowIdView {
        WindowIdView { session: self.0@, address: self.1@ }
    }
}

impl Clone for WindowID {
    fn clone(&self) -> (copy: WindowID)
        ensures
            copy == *self,
    {
        proof {
            use_type_invariant(self);
        }
        WindowID(self.0.clone(), self.1.clone())
    }
}

impl WindowID {
    #[verifier::type_invariant]
    closed spec fn composed(&self) -> bool {
        self@.well_formed()
    }

    /// The window `window_id` of the session `session_id`.
    pub fn new(session_id: &SessionId, window_id: &str) -> (id: WindowID)
        ensures
            id@ == (WindowIdView {
                session: session_id@,
                address: window_address(session_id@, window_id@),
            }),
    {
        proof {
            reveal_strlit(":");
        }
        let address = session_id.to_string().concat(":").concat(window_id);
        assert(address@ =~= window_address(session_id@, window_id@));
        WindowID(session_id.clone(), Id(address))
    }

    /// The address of the session that owns the window.
    pub fn session_id(&self) -> (id: &Id)
        ensures
            id@ == self@.session,
            self@.well_formed(),
    {
        proof {
            use_type_invariant(self);
        }
        self.0.id()
    }

    /// The window's own address, which begins with that of its session.
    pub fn id(&self) -> (id: &Id)
        ensures
            id@ == self@.address,
            self@.well_formed(),
    {
        proof {
            use_type_invariant(self);
        }
        &self.1
    }

    /// The window's address as text.
    pub fn to_string(&self) -> (text: String)
        ensures
            text@ == self@.address,
    {
        self.1.to_string()
    }
}

/// A pane address, and the window it belongs to.
pub struct PaneIdView {
    pub window: WindowIdView,
    pub address: Seq<char>,
}

impl PaneIdView {
    /// Whether the address is that of a pane of the window: the window's
    /// address, a dot, and the pane's position.
    pub open spec fn well_formed(self) -> bool {
        &&& self.window.well_formed()
        &&& (self.window.address + seq!['.']).is_prefix_of(self.address)
    }
}

/// The address of a pane.
#[derive(Debug, PartialEq)]
pub struct PaneID(WindowID, Id);

impl View for PaneID {
    type V = PaneIdView;

    closed spec fn view(&self) -> PaneIdView {
        PaneIdView { window: self.0@, address: self.1@ }
    }
}

impl Clone for PaneID {
    fn clone(&self) -> (copy: PaneID)
        ensures
            copy == *self,
    {
        proof {
            use_type_invariant(self);
        }
        PaneID(self.0.clone(), self.1.clone())
    }
}

impl PaneID {
    #[verifier::type_invariant]
    closed spec fn composed(&self) -> bool {
        self@.well_formed()
    }

    /// The pane `pane_id` of the window `window_id`.
    pub fn new(window_id: &WindowID, pane_id: &str) -> (id: PaneID)
        ensures
            id@ == (PaneIdView {
                window: window_id@,
                address: pane_address(window_id@.address, pane_id@),
            }),
    {
        proof {
            reveal_strlit(".");
        }
        let address = window_id.to_string().concat(".").concat(pane_id);
        assert(address@ =~= pane_address(window_id@.address, pane_id@));
        proof {
            use_type_invariant(window_id);
        }
        PaneID(window_id.clone(), Id(address))
    }

    /// The address of the session that owns the pane's window.
    pub fn session_id(&self) -> (id: &Id)
        ensures
            id@ == self@.window.session,
    {
        self.0.session_id()
    }

    /// The address of the window that owns the pane.
    pub fn window_id(&self) -> (id: &Id)
        ensures
            id@ == self@.window.address,
            self@.well_formed(),
    {
        proof {
            use_type_invariant(self);
        }
        self.0.id()
    }

    /// The pane's own address, which begins with that of its window.
    pub fn id(&self) -> (id: &Id)
        ensures
            id@ == self@.address,
            self@.well_formed(),
    {
        proof {
            use_type_invariant(self);
        }
        &self.1
    }

    /// The pane's address as text.
    pub fn to_string(&self) -> (text: String)
        ensures
            text@ == self@.address,
    {
        self.1.to_string()
    }
}

/// The name to give a window.
#[derive(Debug, PartialEq)]
pub struct WindowName(String);

impl View for WindowName {
    type V = Seq<char>;

    closed spec fn view(&self) -> Seq<char> {
        self.0@
    }
}

impl Clone for WindowName {
    fn clone(&self) -> (copy: WindowName)
        ensures
            copy == *self,
    {
        WindowName(self.0.clone())
    }
}

impl WindowName {
    /// The name `name`.
    pub fn new(name: &str) -> (window_name: WindowName)
        ensures
            window_name@ == name@,
    {
        WindowName(String::from_str(name))
    }

    /// The name as text.
    pub fn value(&self) -> (name: &str)
        ensures
            name@ == self@,
    {
        self.0.as_str()
    }
}

/// The name of a backend option.
#[derive(Debug, PartialEq)]
pub struct OptionName(String);

impl View for OptionName {
    type V = Seq<char>;

    closed spec fn view(&self) -> Seq<char> {
        self.0@
    }
}

impl Clone for OptionName {
    fn clone(&self) -> (copy: OptionName)
        ensures
            copy == *self,
    {
        OptionName(self.0.clone())
    }
}

impl OptionName {
    /// The option called `name`.
    pub fn new(name: &str) -> (option_name: OptionName)
        ensures
            option_name@ == name@,
    {
        OptionName(String::from_str(name))
    }

    /// The name as text.
    pub fn value(&self) -> (name: &str)
        ensures
            name@ == self@,
    {
        self.0.as_str()
    }
}

/// The value of a backend option, as the backend reports it.
#[derive(Debug, PartialEq)]
pub struct OptionValue(String);

impl View for OptionValue {
    type V = Seq<char>;

    closed spec fn view(&self) -> Seq<char> {
        self.0@
    }
}

impl Clone for OptionValue {
    fn clone(&self) -> (copy: OptionValue)
        ensures
            copy == *self,
    {
        OptionValue(self.0.clone())
    }
}

impl OptionValue {
    /// The value with the text `name`.
    pub fn new(name: &str) -> (option_value: OptionValue)
        ensures
            option_value@ == name@,
    {
        OptionValue(String::from_str(name))
    }

    /// The value as text.
    pub fn value(&self) -> (text: &str)
        ensures
            text@ == self@,
    {
        self.0.as_str()
    }
}

/// The name of a pane layout.
#[derive(Debug, PartialEq)]
pub struct Layout(String);

impl View for Layout {
    type V = Seq<char>;

    closed spec fn view(&self) -> Seq<char> {
        self.0@
    }
}

impl Clone for Layout {
    fn clone(&self) -> (copy: Layout)
        ensures
            copy == *self,
    {
        Layout(self.0.clone())
    }
}

/// A line to type into a pane.
#[derive(Debug, PartialEq)]
pub struct Keys(String);

impl View for Keys {
    type V = Seq<char>;

    closed spec fn view(&self) -> Seq<char> {
        self.0@
    }
}

impl Clone for Keys {
    fn clone(&self) -> (copy: Keys)
        ensures
            copy == *self,
    {
        Keys(self.0.clone())
    }
}

impl Keys {
    /// The line `name`, to be typed as it is.
    pub fn new(name: &str) -> (keys: Keys)
        ensures
            keys@ == name@,
    {
        Keys(String::from_str(name))
    }

    /// The line as text.
    pub fn value(&self) -> (text: &str)
        ensures
            text@ == self@,
    {
        self.0.as_str()
    }
}

} // verus!
