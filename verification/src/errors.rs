//! The errors that the library reports.

use vstd::prelude::*;
use crate::text::{concat, contains, occurs_in};

verus! {

/// The classes of failure.
#[derive(Clone, Copy, Debug, PartialEq, Eq, Structural)]
pub enum ErrorKind {
    /// No device or platform matches what was asked for.
    Discovery,
    /// A platform or a device that was named is absent.
    Compatibility,
    /// A bundle could not be built.
    Packaging,
    /// No signing identity, profile or team was found.
    Signing,
    /// A tool or the native channel failed.
    Transport,
    /// A transcript or a descriptor has an unexpected shape.
    ProtocolParse,
    /// The launched program ended with a status other than zero.
    RemoteExecution,
    /// The backend does not offer the operation.
    Unsupported,
}

/// A failure: its class and a message for the user.
#[derive(Debug)]
pub struct Error {
    pub kind: ErrorKind,
    pub message: String,
}

impl Clone for Error {
    fn clone(&self) -> (r: Self)
        ensures
            r == *self,
    {
        Error { kind: self.kind, message: self.message.clone() }
    }
}

/// The words by which a message says that a target filter left nothing.
pub open spec fn filtered_out_marker() -> Seq<char> {
    "are filtered out on platform"@
}

/// The exit status of the process that ends with a failure whose message is
/// `message`: 3 where the failure is that a target filter left nothing to
/// run, 1 for every other failure.
pub open spec fn exit_status(message: Seq<char>) -> int {
    if occurs_in(message, filtered_out_marker()) {
        3
    } else {
        1
    }
}

impl Error {
    /// Whether this is the failure of class `kind` with message `message`.
    pub open spec fn is(&self, kind: ErrorKind, message: Seq<char>) -> bool {
        self.kind == kind && self.message@ == message
    }

    /// A failure of class `kind` with the message `message`.
    pub fn new(kind: ErrorKind, message: &str) -> (e: Error)
        ensures
            e.is(kind, message@),
    {
        Error { kind, message: message.to_owned() }
    }

    /// A failure of class `kind` whose message is `head` followed by `tail`.
    pub fn with_detail(kind: ErrorKind, head: &str, tail: &str) -> (e: Error)
        ensures
            e.is(kind, head@ + tail@),
    {
        Error { kind, message: concat(head, tail) }
    }

    /// The message.
    pub fn to_string(&self) -> (s: String)
        ensures
            s@ == self.message@,
    {
        self.message.clone()
    }

    /// The exit status of the process that ends with this failure.
    pub fn exit_code(&self) -> (code: i32)
        ensures
            code == exit_status(self.message@),
    {
        if contains(self.message.as_str(), "are filtered out on platform") {
            3
        } else {
            1
        }
    }
}

} // verus!
