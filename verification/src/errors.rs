use vstd::prelude::*;

verus! {

/// The failure taxonomy of the broker's request surface.
///
/// `AccessDenied` is never retried; `AlreadyRunning` marks a call that
/// conflicts with the record's lifecycle state; `SpawnFailed` surfaces an
/// operating-system failure to allocate a pseudo-terminal or launch a child.
#[derive(Clone, Copy, Debug, PartialEq, Eq, Structural)]
pub enum Error {
    /// The caller could not be identified, is not authorized, or is not the
    /// owner of the record it addressed.
    AccessDenied,
    /// The request is malformed: an empty command, or a call that the
    /// record's state can never accept.
    InvalidArgs,
    /// A configuration or spawn call arrived after the record had already
    /// been spawned.
    AlreadyRunning,
    /// The operating system failed to allocate a pseudo-terminal or to
    /// launch the child process.
    SpawnFailed,
    /// The operation is declared on the interface but deliberately not
    /// implemented.
    NotImplemented,
    /// The requested target account is not one the broker supports.
    UnsupportedUser,
    /// No published process record exists at the requested id.
    UnknownProcess,
}

} // verus!
