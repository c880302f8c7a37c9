//! Failure kinds of the broker, and the structured error body the CI engine
//! returns.

use vstd::prelude::*;

verus! {

/// Everything that can go wrong while ingesting events or driving the CI
/// engine.
#[derive(Debug, PartialEq, Eq)]
pub enum ErrorKind {
    /// An authenticated call was attempted while no token was held.
    NoToken,
    /// The HTTP exchange itself failed (connect, read, timeout).
    Transport,
    /// The engine answered with a client or server error; the payload is the
    /// raw response body.
    RemoteError(String),
    /// A reply that should have been JSON of the expected shape was not.
    Decode,
    /// The downstream pipeline never exposed a job within the poll budget.
    Timeout,
    /// The node subscription or its storage failed.
    IngestError,
    /// The job queue was closed while the ingester was still producing.
    SendError,
}

impl Clone for ErrorKind {
    fn clone(&self) -> (r: Self)
        ensures
            r == *self,
    {
        match self {
            ErrorKind::NoToken => ErrorKind::NoToken,
            ErrorKind::Transport => ErrorKind::Transport,
            ErrorKind::RemoteError(body) => ErrorKind::RemoteError(body.clone()),
            ErrorKind::Decode => ErrorKind::Decode,
            ErrorKind::Timeout => ErrorKind::Timeout,
            ErrorKind::IngestError => ErrorKind::IngestError,
            ErrorKind::SendError => ErrorKind::SendError,
        }
    }
}

/// A warning element inside the engine's structured error body.
#[derive(Debug, Clone, PartialEq, Eq)]
pub struct Warning {
    pub kind: String,
    pub message: String,
}

/// The engine's structured failure value: at least one error line, and
/// optionally some warnings.
#[derive(Debug, Clone, PartialEq, Eq)]
pub struct ResponseError {
    pub errors: Vec<String>,
    pub warnings: Option<Vec<Warning>>,
}

impl ResponseError {
    /// The invariant: a response error carries at least one error line.
    pub open spec fn well_formed(&self) -> bool {
        self.errors@.len() >= 1
    }

    /// Wrap one raw error body as a structured error, as the driver does for
    /// every client- or server-error reply.
    pub fn from_body(body: String) -> (r: ResponseError)
        ensures
            r.errors@ == seq![body],
            r.warnings is None,
            r.well_formed(),
    {
        ResponseError { errors: vec![body], warnings: None }
    }
}

} // verus!
