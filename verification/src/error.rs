//! Failure classification for the process manager. These are consumed at the
//! boundary: the host renders them; nothing in here branches on them beyond
//! propagation.

use vstd::prelude::*;

verus! {

/// What went wrong, by kind. OS-level failures carry the errno observed.
#[derive(Debug)]
pub enum TtyError {
    /// The OS could not allocate a pseudo-terminal pair.
    PtyAllocation(i32),
    /// Fork or exec failed; the payload is the OS error text.
    SpawnFailure(String),
    /// A process identifier the manager does not track was addressed.
    /// Reserved for a registry that maps identifiers to handles.
    ProcessNotFound(u32),
    /// A tracked process was addressed but is no longer running.
    /// Reserved for a registry that maps identifiers to handles.
    ProcessNotRunning(u32),
    /// A read- or write-side OS failure, surfaced to the immediate caller.
    /// The payload is the errno, or 0 when a write accepted no bytes.
    Io(i32),
}

} // verus!
