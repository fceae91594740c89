//! The ways in which a login or a call can fail.

use vstd::prelude::*;
use vstd::string::StringExecFns;

verus! {

/// An [`Error`] with texts in place of strings.
pub enum ErrorView {
    RequestFailed(Seq<char>),
    JsonDecodeError(Seq<char>),
    ResponseTextError,
}

/// Why a login or a call came to nothing.
#[derive(Debug, PartialEq, Eq)]
pub enum Error {
    /// The request could not be carried, or the server answered it with an
    /// error status. The text says which.
    RequestFailed(String),
    /// The answer to the login did not hold what a login answer holds. The
    /// text is the decoder's.
    JsonDecodeError(String),
    /// The answer to the call could not be read as text.
    ResponseTextError,
}

impl View for Error {
    type V = ErrorView;

    open spec fn view(&self) -> ErrorView {
        match self {
            Error::RequestFailed(text) => ErrorView::RequestFailed(text@),
            Error::JsonDecodeError(text) => ErrorView::JsonDecodeError(text@),
            Error::ResponseTextError => ErrorView::ResponseTextError,
        }
    }
}

/// The text that [`Error::message`] gives for an error.
pub open spec fn message_text(error: ErrorView) -> Seq<char> {
    match error {
        ErrorView::RequestFailed(text) => "request failed: "@ + text,
        ErrorView::JsonDecodeError(text) => "cannot decode the login answer: "@ + text,
        ErrorView::ResponseTextError => "cannot read the answer as text"@,
    }
}

impl Error {
    /// A line for the user: what failed, and the text that came with it.
    pub fn message(&self) -> (line: String)
        ensures
            line@ == message_text(self@),
    {
        match self {
            Error::RequestFailed(text) => String::from_str("request failed: ").concat(text.as_str()),
            Error::JsonDecodeError(text) => String::from_str(
                "cannot decode the login answer: ",
            ).concat(text.as_str()),
            Error::ResponseTextError => String::from_str("cannot read the answer as text"),
        }
    }
}

impl Clone for Error {
    fn clone(&self) -> (copy: Error)
        ensures
            copy@ == self@,
    {
        match self {
            Error::RequestFailed(text) => Error::RequestFailed(text.clone()),
            Error::JsonDecodeError(text) => Error::JsonDecodeError(text.clone()),
            Error::ResponseTextError => Error::ResponseTextError,
        }
    }
}

} // verus!
