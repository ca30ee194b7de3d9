//! What can go wrong while reconciling.

use vstd::prelude::*;
use vstd::string::*;

verus! {

/// A failure of the reconciler or of the backend.
#[derive(Debug, PartialEq)]
pub enum Error {
    /// The base indices could not be had; the text says why.
    BaseIdsError(String),
    /// The backend has no such option; the text is the backend's.
    OptionNotFound(String),
}

/// An [`Error`] as plain values.
pub enum ErrorView {
    BaseIdsError(Seq<char>),
    OptionNotFound(Seq<char>),
}

impl View for Error {
    type V = ErrorView;

    open spec fn view(&self) -> ErrorView {
        match self {
            Error::BaseIdsError(detail) => ErrorView::BaseIdsError(detail@),
            Error::OptionNotFound(detail) => ErrorView::OptionNotFound(detail@),
        }
    }
}

impl Clone for Error {
    fn clone(&self) -> (copy: Error)
        ensures
            copy == *self,
    {
        match self {
            Error::BaseIdsError(detail) => Error::BaseIdsError(detail.clone()),
            Error::OptionNotFound(detail) => Error::OptionNotFound(detail.clone()),
        }
    }
}

/// The sentence in which an error is shown to the user.
pub open spec fn error_text(error: ErrorView) -> Seq<char> {
    match error {
        ErrorView::BaseIdsError(detail) => "unable to setup base ids: "@ + detail,
        ErrorView::OptionNotFound(detail) => "option `"@ + detail + "` not found"@,
    }
}

impl Error {
    /// The sentence in which the error is shown to the user.
    pub fn to_string(&self) -> (text: String)
        ensures
            text@ == error_text(self@),
    {
        match self {
            Error::BaseIdsError(detail) => String::from_str("unable to setup base ids: ").concat(
                detail.as_str(),
            ),
            Error::OptionNotFound(detail) => String::from_str("option `").concat(
                detail.as_str(),
            ).concat("` not found"),
        }
    }
}

} // verus!
