use vstd::prelude::*;

verus! {

/// The kind of a normalized transport failure.
///
/// Every failure of a send is surfaced as exactly one of these; no partial
/// response accompanies an error.
#[derive(Clone, Copy, Debug, PartialEq, Eq, Structural)]
pub enum ErrorKind {
    /// The engine could not establish or complete the network exchange.
    TransportFailure,
    /// A value could not be translated into the engine's representation;
    /// detected before any network traffic.
    ProtocolError,
    /// The engine returned an answer that could not be translated back.
    ResponseMalformed,
}

/// A normalized failure value: a kind plus a human-readable message taken
/// from the underlying failure.
#[derive(Debug)]
pub struct Error {
    kind: ErrorKind,
    message: String,
}

impl Error {
    /// The kind of this error.
    pub closed spec fn spec_kind(self) -> ErrorKind {
        self.kind
    }

    /// The message of this error.
    pub closed spec fn spec_message(self) -> Seq<char> {
        self.message@
    }

    /// Wraps a network-level failure of the engine.
    pub fn transport(message: String) -> (e: Error)
        ensures
            e.spec_kind() == ErrorKind::TransportFailure,
            e.spec_message() == message@,
    {
        Error { kind: ErrorKind::TransportFailure, message }
    }

    /// Reports a value the engine's representation cannot carry.
    pub fn protocol(message: String) -> (e: Error)
        ensures
            e.spec_kind() == ErrorKind::ProtocolError,
            e.spec_message() == message@,
    {
        Error { kind: ErrorKind::ProtocolError, message }
    }

    /// Reports an engine answer that could not be translated back.
    pub fn malformed(message: String) -> (e: Error)
        ensures
            e.spec_kind() == ErrorKind::ResponseMalformed,
            e.spec_message() == message@,
    {
        Error { kind: ErrorKind::ResponseMalformed, message }
    }

    /// The kind of this error.
    pub fn kind(&self) -> (k: ErrorKind)
        ensures
            k == self.spec_kind(),
    {
        self.kind
    }

    /// The message of this error.
    pub fn message(&self) -> (m: &String)
        ensures
            m@ == self.spec_message(),
    {
        &self.message
    }
}

} // verus!
