use vstd::prelude::*;

verus! {

/// How an operation failed, following the engine's error taxonomy:
/// transport and parse failures abort an exchange outright, a missing
/// session is a caller error, and server-reported failures are either
/// retried within the budget (`Protocol`) or terminal once the budget
/// is spent (`RetryExhausted`).
#[derive(Clone, Copy, Debug, PartialEq, Eq, Structural)]
pub enum ErrorKind {
    /// The request could not be exchanged with the server at all.
    Transport,
    /// The response batch did not classify against the wire schema.
    Parse,
    /// An operation that needs a bound session was attempted without one.
    Session,
    /// The server reported an unsuccessful response.
    Protocol,
    /// The server kept failing until the retry budget was spent.
    RetryExhausted,
}

/// An error surfaced to the caller, carrying the server-reported reason
/// when one was supplied, or a synthesized message otherwise.
#[derive(Debug)]
pub struct Error {
    pub kind: ErrorKind,
    pub message: String,
}

impl Error {
    /// A protocol-level error with the given message.
    pub fn new(msg: &str) -> (e: Error)
        ensures
            e.kind == ErrorKind::Protocol,
            e.message@ == msg@,
    {
        Error { kind: ErrorKind::Protocol, message: msg.to_owned() }
    }

    /// An error of the given kind with the given message.
    pub fn with_kind(kind: ErrorKind, msg: &str) -> (e: Error)
        ensures
            e.kind == kind,
            e.message@ == msg@,
    {
        Error { kind, message: msg.to_owned() }
    }
}

} // verus!
