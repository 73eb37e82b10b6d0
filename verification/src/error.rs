use vstd::prelude::*;

verus! {

/// The error taxonomy of the channel protocol.
///
/// Every fallible operation of this crate reports exactly one of these
/// kinds; callers that need richer detail (an OS error code, a message)
/// attach it outside the library, at the I/O layer.
#[derive(Clone, Copy, Debug, PartialEq, Eq, Structural)]
pub enum NamedPipeError {
    /// The underlying stream failed (broken pipe, OS-level denial).
    Io,
    /// An operation was attempted before connect/accept or after disconnect.
    NotConnected,
    /// A malformed or unauthenticated payload: truncated ciphertext, failed
    /// authentication, invalid UTF-8, or a bad frame. A single generic kind,
    /// so that a failed authentication is indistinguishable from a wrong key.
    Data,
    /// The peer process's executable path could not be resolved or did not
    /// match the caller's own; the connection is unusable (fail closed).
    Identity,
}

} // verus!
