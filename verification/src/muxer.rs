//! Reconciling a declared session with the running multiplexer.

pub mod client;
pub mod directory;
pub mod error;
pub mod ids;
pub mod laws;
pub mod plan;
pub mod reconcile;
pub mod recorder;

pub use client::{Call, CallView, Client};
pub use directory::{directory_to_string, resolve_directory};
pub use error::{Error, ErrorView};
pub use ids::{Id, Keys, Layout, OptionName, OptionValue, PaneID, SessionId, WindowID, WindowName};
pub use reconcile::{all_indices_fit, read_base_index, Muxer, Output};
pub use recorder::Recorder;
