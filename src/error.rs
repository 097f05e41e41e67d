use vstd::prelude::*;

verus! {

/// The failures a credential source reports to its caller.
#[derive(Debug, Clone, PartialEq, Eq)]
pub enum Error {
    /// The authentication tool could not be launched or exited with a failure status.
    ProcessInvocationFailed,
    /// The authentication tool printed something that is not UTF-8 text.
    ProcessOutputUndecodable,
    /// No project identifier was resolved when the source was built.
    NoProjectId,
    /// The body of an HTTP response could not be buffered.
    ConnectionFailed,
    /// The server answered with a non-success status; carries the diagnostic text.
    ServerUnavailable(String),
    /// A structured payload was malformed or lacked a required field.
    DeserializeFailed,
}

} // verus!
