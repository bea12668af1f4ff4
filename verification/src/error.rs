//! The closed set of failures of the tracker, and the failures of a history
//! query.

use vstd::prelude::*;
use vstd::string::StringExecFns;

verus! {

/// A failure of the tracker. Each kind is made by the component that detects
/// the condition; no kind converts into another.
#[derive(Debug)]
pub enum Error {
    /// The transport failed on the way to an upstream; carries its message.
    Transport(String),
    /// A payload or a table did not have the expected shape; carries the
    /// decoder's message.
    Parse(String),
    /// The upstream signalled throttling; carries the upstream's message.
    RateLimited(String),
    /// The required credential is missing.
    Config,
}

/// The view of an [`Error`].
pub enum ErrorView {
    Transport(Seq<char>),
    Parse(Seq<char>),
    RateLimited(Seq<char>),
    Config,
}

impl ErrorView {
    /// The text that describes the failure to a client.
    pub open spec fn message(self) -> Seq<char> {
        match self {
            ErrorView::Transport(m) => "Cat reqwest error: "@ + m,
            ErrorView::Parse(m) => m,
            ErrorView::RateLimited(m) => "Rate limited: "@ + m,
            ErrorView::Config => "no api key found"@,
        }
    }
}

impl View for Error {
    type V = ErrorView;

    open spec fn view(&self) -> ErrorView {
        match self {
            Error::Transport(m) => ErrorView::Transport(m@),
            Error::Parse(m) => ErrorView::Parse(m@),
            Error::RateLimited(m) => ErrorView::RateLimited(m@),
            Error::Config => ErrorView::Config,
        }
    }
}

impl Clone for Error {
    fn clone(&self) -> (r: Self)
        ensures
            r@ == self@,
    {
        match self {
            Error::Transport(m) => Error::Transport(m.clone()),
            Error::Parse(m) => Error::Parse(m.clone()),
            Error::RateLimited(m) => Error::RateLimited(m.clone()),
            Error::Config => Error::Config,
        }
    }
}

impl Error {
    /// The status that every failure of the tracker is answered with.
    pub open spec fn spec_status_code() -> u16 {
        500
    }

    /// The text that describes the failure to a client.
    pub fn message(&self) -> (text: String)
        ensures
            text@ == self@.message(),
    {
        match self {
            Error::Transport(m) => String::from_str("Cat reqwest error: ").concat(m.as_str()),
            Error::Parse(m) => m.clone(),
            Error::RateLimited(m) => String::from_str("Rate limited: ").concat(m.as_str()),
            Error::Config => String::from_str("no api key found"),
        }
    }

    /// The status that a failure is answered with: one generic failure
    /// status, whatever the kind.
    pub fn status_code(&self) -> (code: u16)
        ensures
            code == Self::spec_status_code(),
    {
        500
    }
}

/// A failure of a history query.
#[derive(Clone, Copy, PartialEq, Eq, Structural, Debug)]
pub enum HistoryError {
    InvalidRange,
    NotFound,
}

impl HistoryError {
    /// The text of the failure.
    pub open spec fn spec_message(self) -> Seq<char> {
        match self {
            HistoryError::InvalidRange => "invalid range"@,
            HistoryError::NotFound => "record not found"@,
        }
    }

    /// The text of the failure.
    pub fn message(&self) -> (text: String)
        ensures
            text@ == self.spec_message(),
    {
        match self {
            HistoryError::InvalidRange => String::from_str("invalid range"),
            HistoryError::NotFound => String::from_str("record not found"),
        }
    }
}

/// A failure of a history query on its way to a client.
#[derive(Clone, Copy, PartialEq, Eq, Structural, Debug)]
pub struct ApiError(pub HistoryError);

impl ApiError {
    /// The status that the failure is answered with.
    pub open spec fn spec_status_code(self) -> u16 {
        match self.0 {
            HistoryError::InvalidRange => 400,
            HistoryError::NotFound => 404,
        }
    }

    /// The status that the failure is answered with: a bad request for an
    /// invalid range, not found for a missing record.
    pub fn status_code(&self) -> (code: u16)
        ensures
            code == self.spec_status_code(),
    {
        match self.0 {
            HistoryError::InvalidRange => 400,
            HistoryError::NotFound => 404,
        }
    }

    /// The body that the failure is answered with: the text of the failure.
    pub fn body(&self) -> (text: String)
        ensures
            text@ == self.0.spec_message(),
    {
        self.0.message()
    }
}

impl From<HistoryError> for ApiError {
    fn from(err: HistoryError) -> (r: ApiError) {
        ApiError(err)
    }
}

impl vstd::std_specs::convert::FromSpecImpl<HistoryError> for ApiError {
    open spec fn obeys_from_spec() -> bool {
        true
    }

    open spec fn from_spec(err: HistoryError) -> ApiError {
        ApiError(err)
    }
}

} // verus!
