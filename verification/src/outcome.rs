//! Modes, error classification, terminal outcomes and exit behaviour.

use vstd::prelude::*;

verus! {

/// Which of the two terminal behaviours was requested: print the body as
/// text, or save it to a file.
#[derive(Clone, Copy, Debug, PartialEq, Eq, Structural)]
pub enum Mode {
    Print,
    Save,
}

/// Classification of every way a run can fail.
#[derive(Clone, Copy, Debug, PartialEq, Eq, Structural)]
pub enum ErrorKind {
    /// The URL is not a syntactically acceptable absolute URL.
    InvalidInput,
    /// The response carried a status code outside the 2xx range.
    RequestFailed,
    /// The transport failed, before the response or while the body streamed.
    Network,
    /// The destination file could not be created or written.
    Storage,
}

/// Terminal result of one run.
#[derive(Clone, Copy, Debug, PartialEq, Eq, Structural)]
pub enum Outcome {
    /// The body was decoded as text and printed.
    Printed,
    /// This many body bytes were written to the destination file.
    Saved { bytes: usize },
    /// The run failed; nothing further was printed or written.
    Failure { kind: ErrorKind },
}

/// A status code that counts as success: the 2xx range.
pub open spec fn is_success_code(status: u16) -> bool {
    200 <= status < 300
}

/// Classifies an HTTP status code: only 2xx counts as success.
pub fn status_is_success(status: u16) -> (r: bool)
    ensures
        r == is_success_code(status),
{
    200 <= status && status < 300
}

/// The process exit code for an outcome: zero exactly on success.
pub fn exit_code(outcome: &Outcome) -> (r: i32)
    ensures
        (r == 0) <==> !(outcome is Failure),
{
    match outcome {
        Outcome::Failure { .. } => 1,
        _ => 0,
    }
}

/// The view of the one-line message that `ErrorKind::message` returns.
pub open spec fn message_view(kind: ErrorKind) -> Seq<char> {
    match kind {
        ErrorKind::InvalidInput => "Invalid url"@,
        ErrorKind::RequestFailed => "Unable to request to provided url"@,
        ErrorKind::Network => "Unable to collect buffer"@,
        ErrorKind::Storage => "Unable to save to file"@,
    }
}

impl ErrorKind {
    /// A one-line human-readable description of the failure.
    pub fn message(&self) -> (r: String)
        ensures
            r@ == message_view(*self),
    {
        match self {
            ErrorKind::InvalidInput => String::from_str("Invalid url"),
            ErrorKind::RequestFailed => String::from_str("Unable to request to provided url"),
            ErrorKind::Network => String::from_str("Unable to collect buffer"),
            ErrorKind::Storage => String::from_str("Unable to save to file"),
        }
    }
}

} // verus!
