//! A session: one worker on one pseudo-terminal.

use vstd::prelude::*;
use crate::launcher::ChildId;
use crate::pty::MasterHandle;
use crate::status::Status;

verus! {

/// The token under which the registry knows a session.
#[derive(Clone, Copy, Debug, PartialEq, Eq, Hash, Structural)]
pub struct SessionId(pub u64);

/// What a session knows of its bridge. A session is given a bridge at most
/// once: the slot never becomes vacant again.
#[derive(Clone, Copy, Debug, PartialEq, Eq, Structural)]
pub enum BridgeSlot {
    /// No bridge has been attached.
    Vacant,
    /// A bridge is attached and at least one of its pumps has not stopped.
    Attached,
    /// A bridge was attached and both of its pumps have stopped.
    Finished,
}

impl BridgeSlot {
    /// The place of a slot in its order: vacant, attached, finished.
    pub open spec fn rank(self) -> nat {
        match self {
            BridgeSlot::Vacant => 0,
            BridgeSlot::Attached => 1,
            BridgeSlot::Finished => 2,
        }
    }
}

/// One session of the registry. It owns the master of its pseudo-terminal
/// from its creation to its removal.
#[derive(Debug, PartialEq, Eq)]
pub struct Session {
    pub id: SessionId,
    pub master: MasterHandle,
    pub child: ChildId,
    pub status: Status,
    /// Milliseconds since the start of 1970 at which the session was made.
    pub created_at: i64,
    pub bridge: BridgeSlot,
}

impl Session {
    /// What a session may become: its identity, its master, its worker and
    /// the time of its creation stay as they are, its status stays or takes
    /// one step forward, and its bridge slot never goes back.
    pub open spec fn evolves_to(self, later: Session) -> bool {
        &&& later.id == self.id
        &&& later.master == self.master
        &&& later.child == self.child
        &&& later.created_at == self.created_at
        &&& self.status.advances_to(later.status)
        &&& self.bridge.rank() <= later.bridge.rank()
    }

    /// What a session may become in any number of steps: as in
    /// `evolves_to`, but with a status that the old one reaches.
    pub open spec fn reaches(self, later: Session) -> bool {
        &&& later.id == self.id
        &&& later.master == self.master
        &&& later.child == self.child
        &&& later.created_at == self.created_at
        &&& self.status.reaches(later.status)
        &&& self.bridge.rank() <= later.bridge.rank()
    }
}

} // verus!
