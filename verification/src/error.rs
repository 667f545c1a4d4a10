//! The errors that the operations of this crate return.

use vstd::prelude::*;

verus! {

/// What can go wrong in the life of a session.
#[derive(Clone, Copy, Debug, PartialEq, Eq, Structural)]
pub enum Error {
    /// The pseudo-terminal could not be opened, granted, unlocked or named.
    PtyAllocation,
    /// No worker process could be created.
    SpawnFailure,
    /// The session has been given a bridge before.
    AlreadyAttached,
    /// The registry holds no such session, or the session has ended.
    NotFound,
    /// The transport failed while a pump was using it.
    TransportIo,
    /// The master side of the pseudo-terminal failed while a pump was using it.
    PtyIo,
    /// The end of the worker process could not be observed.
    ChildWaitFailure,
}

} // verus!
