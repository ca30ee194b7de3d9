//! A client that talks to no backend: it answers from a script and keeps
//! every call it receives, to be looked at afterwards.

use super::client::{reply_view, Call, CallView, Client};
use super::error::{Error, ErrorView};
use super::ids::{Keys, Layout, OptionName, OptionValue, PaneID, SessionId, WindowID, WindowName};
use crate::text::same_text;
use vstd::prelude::*;
use vstd::string::*;

verus! {

/// What a script answers when asked for the option `name`: the value of the
/// first entry of that name, and "not found" with the name where there is
/// none.
pub open spec fn scripted_reply(options: Seq<(Seq<char>, Seq<char>)>, name: Seq<char>) -> Result<
    Seq<char>,
    ErrorView,
>
    decreases options.len(),
{
    if options.len() == 0 {
        Err(ErrorView::OptionNotFound(name))
    } else if options[0].0 == name {
        Ok(options[0].1)
    } else {
        scripted_reply(options.skip(1), name)
    }
}

/// The calls of a record as plain values.
pub open spec fn calls_view(calls: Seq<Call>) -> Seq<CallView> {
    Seq::new(calls.len(), |i: int| calls[i]@)
}

/// A scripted client that records its calls.
pub struct Recorder {
    found: bool,
    options: Vec<(String, String)>,
    calls: Vec<Call>,
}

impl Recorder {
    /// What the recorder answers when asked whether a session exists.
    pub closed spec fn found(&self) -> bool {
        self.found
    }

    /// The options the recorder knows, as pairs of name and value.
    pub closed spec fn options(&self) -> Seq<(Seq<char>, Seq<char>)> {
        Seq::new(self.options@.len(), |i: int| (self.options@[i].0@, self.options@[i].1@))
    }

    /// A recorder that has seen no call and knows no option. It says of
    /// every session that it exists, or of none, as `has_session` tells.
    pub fn new(has_session: bool) -> (recorder: Recorder)
        ensures
            recorder.found() == has_session,
            recorder.options() == Seq::<(Seq<char>, Seq<char>)>::empty(),
            recorder.history() == Seq::<CallView>::empty(),
    {
        Recorder { found: has_session, options: Vec::new(), calls: Vec::new() }
    }

    /// The same recorder, knowing one more option. An earlier entry of the
    /// same name keeps being the one that answers.
    pub fn with_option(self, name: &str, value: &str) -> (recorder: Recorder)
        ensures
            recorder.found() == self.found(),
            recorder.options() == self.options().push((name@, value@)),
            recorder.history() == self.history(),
    {
        let mut recorder = self;
        recorder.options.push((String::from_str(name), String::from_str(value)));
        recorder
    }

    /// The calls received so far, oldest first.
    pub fn calls(&self) -> (calls: &Vec<Call>)
        ensures
            calls_view(calls@) == self.history(),
    {
        &self.calls
    }

    fn reply(&self, name: &str) -> (reply: Result<OptionValue, Error>)
        ensures
            reply_view(reply) == scripted_reply(self.options(), name@),
    {
        let mut i: usize = 0;
        assert(self.options().skip(0) =~= self.options());
        while i < self.options.len()
            invariant
                i <= self.options.len(),
                scripted_reply(self.options(), name@) == scripted_reply(
                    self.options().skip(i as int),
                    name@,
                ),
            decreases self.options.len() - i,
        {
            if same_text(self.options[i].0.as_str(), name) {
                return Ok(OptionValue::new(self.options[i].1.as_str()));
            }
            assert(self.options().skip(i as int).skip(1) =~= self.options().skip(i + 1));
            i = i + 1;
        }
        Err(Error::OptionNotFound(String::from_str(name)))
    }

    fn record(&mut self, call: Call)
        ensures
            final(self).history() == old(self).history().push(call@),
            final(self).found() == old(self).found(),
            final(self).options() == old(self).options(),
    {
        self.calls.push(call);
    }
}

impl Client for Recorder {
    closed spec fn history(&self) -> Seq<CallView> {
        calls_view(self.calls@)
    }

    fn get_option(&mut self, option_name: &OptionName) -> (reply: Result<OptionValue, Error>)
        ensures
            reply_view(reply) == scripted_reply(old(self).options(), option_name@),
            final(self).found() == old(self).found(),
            final(self).options() == old(self).options(),
    {
        let reply = self.reply(option_name.value());
        let kept = match &reply {
            Ok(value) => Ok(value.clone()),
            Err(error) => Err(error.clone()),
        };
        self.record(Call::GetOption(option_name.clone(), kept));
        reply
    }

    fn set_option(&mut self, option_name: &OptionName, option_value: &OptionValue)
        ensures
            final(self).found() == old(self).found(),
            final(self).options() == old(self).options(),
    {
        self.record(Call::SetOption(option_name.clone(), option_value.clone()));
    }

    fn new_session(&mut self, session_id: &SessionId, directory: &str)
        ensures
            final(self).found() == old(self).found(),
            final(self).options() == old(self).options(),
    {
        self.record(Call::NewSession(session_id.clone(), String::from_str(directory)));
    }

    fn switch_to_session(&mut self, session_id: &SessionId)
        ensures
            final(self).found() == old(self).found(),
            final(self).options() == old(self).options(),
    {
        self.record(Call::SwitchToSession(session_id.clone()));
    }

    fn has_session(&mut self, session_id: &SessionId) -> (found: bool)
        ensures
            found == old(self).found(),
            final(self).found() == old(self).found(),
            final(self).options() == old(self).options(),
    {
        let found = self.found;
        self.record(Call::HasSession(session_id.clone(), found));
        found
    }

    fn new_window(&mut self, session_id: &SessionId, directory: &str)
        ensures
            final(self).found() == old(self).found(),
            final(self).options() == old(self).options(),
    {
        self.record(Call::NewWindow(session_id.clone(), String::from_str(directory)));
    }

    fn rename_window(&mut self, window_id: &WindowID, window_name: &WindowName)
        ensures
            final(self).found() == old(self).found(),
            final(self).options() == old(self).options(),
    {
        self.record(Call::RenameWindow(window_id.clone(), window_name.clone()));
    }

    fn new_pane(&mut self, window_id: &WindowID, directory: &str)
        ensures
            final(self).found() == old(self).found(),
            final(self).options() == old(self).options(),
    {
        self.record(Call::NewPane(window_id.clone(), String::from_str(directory)));
    }

    fn select_pane(&mut self, pane_id: &PaneID)
        ensures
            final(self).found() == old(self).found(),
            final(self).options() == old(self).options(),
    {
        self.record(Call::SelectPane(pane_id.clone()));
    }

    fn send_keys(&mut self, pane_id: &PaneID, keys: Keys)
        ensures
            final(self).found() == old(self).found(),
            final(self).options() == old(self).options(),
    {
        self.record(Call::SendKeys(pane_id.clone(), keys));
    }

    fn use_layout(&mut self, layout: &Layout)
        ensures
            final(self).found() == old(self).found(),
            final(self).options() == old(self).options(),
    {
        self.record(Call::UseLayout(layout.clone()));
    }
}

} // verus!
