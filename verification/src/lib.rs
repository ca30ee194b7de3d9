//! Declarative tmux sessions: a session is described as a tree of windows
//! and panes, and reconciled against a running multiplexer.
//!
//! * [`config`] is the declarative tree, and the naming of the files that
//!   hold it.
//! * [`muxer`] holds the addresses of sessions, windows and panes, the
//!   interface to the backend, and the reconciler itself.
//! * [`text`] reads and writes the decimal numbers the backend speaks in,
//!   and orders names.
//! * [`completions`] adapts generated shell completion scripts.

pub mod completions;
pub mod config;
pub mod muxer;
pub mod text;
