//! Structured errors. Code inside the bridge branches on the kind; a message
//! string is produced only at the outer boundary.

use vstd::prelude::*;

verus! {

/// The four ways an invocation, or the building of a registry, can fail.
#[derive(Clone, Copy, Debug, PartialEq, Eq, Structural)]
pub enum ErrorKind {
    /// The requested name is not registered.
    UnknownCommand,
    /// The arguments do not have the shape the command expects.
    ArgumentError,
    /// The filesystem reported a failure.
    IOError,
    /// A name was registered twice.
    DuplicateCommand,
}

/// An error of a given kind with its detail: the command name for
/// `UnknownCommand` and `DuplicateCommand`, a description of the problem for
/// `ArgumentError`, and the host's own message for `IOError`.
#[derive(Clone, Debug)]
pub struct BridgeError {
    pub kind: ErrorKind,
    pub detail: String,
}

impl View for BridgeError {
    type V = (ErrorKind, Seq<char>);

    open spec fn view(&self) -> (ErrorKind, Seq<char>) {
        (self.kind, self.detail@)
    }
}

/// The text that opens the message of each kind of error.
pub open spec fn kind_prefix(kind: ErrorKind) -> Seq<char> {
    match kind {
        ErrorKind::UnknownCommand => "unknown command: "@,
        ErrorKind::ArgumentError => "invalid arguments: "@,
        ErrorKind::IOError => ""@,
        ErrorKind::DuplicateCommand => "duplicate command: "@,
    }
}

/// The message that crosses the boundary for an error. A filesystem error
/// carries the host's message as it is.
pub open spec fn message_spec(e: (ErrorKind, Seq<char>)) -> Seq<char> {
    kind_prefix(e.0) + e.1
}

/// `r` is an error, and that error is `e`.
pub open spec fn fails_with<T>(r: Result<T, BridgeError>, e: (ErrorKind, Seq<char>)) -> bool {
    match r {
        Ok(_) => false,
        Err(x) => x@ == e,
    }
}

impl BridgeError {
    pub fn new(kind: ErrorKind, detail: String) -> (r: BridgeError)
        ensures
            r@ == (kind, detail@),
    {
        BridgeError { kind, detail }
    }

    /// The descriptive string that stands for this error outside the bridge.
    pub fn message(&self) -> (r: String)
        ensures
            r@ == message_spec(self@),
    {
        let prefix: &str = match self.kind {
            ErrorKind::UnknownCommand => "unknown command: ",
            ErrorKind::ArgumentError => "invalid arguments: ",
            ErrorKind::IOError => "",
            ErrorKind::DuplicateCommand => "duplicate command: ",
        };
        let mut r = prefix.to_owned();
        r.append(self.detail.as_str());
        r
    }
}

} // verus!
