use vstd::prelude::*;

verus! {

/// What went wrong, so that callers can match on the cause rather than on
/// the text.
#[derive(PartialEq, Eq, Structural, Clone, Copy, Debug)]
pub enum ErrorKind {
    /// The shell process could not be started.
    SpawnFailed,
    /// The process had no standard output to read.
    PipeUnavailable,
    /// Waiting for the process failed.
    WaitFailed,
    /// The process ran but did not exit successfully.
    NonZeroExit,
    /// A path given by the caller is not a readable file name.
    InvalidPath,
    /// A structured document could not be decoded.
    DecodeFailed,
    /// Standard output could not be split into text lines.
    LineReadFailed,
    /// A non-blank line is not a numeric code followed by a message.
    LineParseFailed,
}

/// The single error of this library: a cause and a message that is enough
/// on its own to diagnose the failure.
#[derive(Debug)]
pub struct HypervError {
    pub kind: ErrorKind,
    pub msg: String,
}

impl HypervError {
    pub fn new(kind: ErrorKind, msg: &str) -> (r: Self)
        ensures
            r.kind == kind,
            r.msg@ == msg@,
    {
        HypervError { kind, msg: String::from_str(msg) }
    }

    /// The message text, as the error displays it.
    pub fn message(&self) -> (r: &str)
        ensures
            r@ == self.msg@,
    {
        self.msg.as_str()
    }
}

} // verus!
