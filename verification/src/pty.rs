//! Allocation of a pseudo-terminal pair, step by step.
//!
//! Four requests to the system make a pair: open a master, grant access to
//! it, unlock its slave, and resolve the slave's path. `PtyPair` holds how
//! far an allocation has come. It answers the outcome of each request with
//! the next one, and ends either by handing out the finished pair or by
//! aborting, in which case it hands back the master that has been opened so
//! that it is closed.

use vstd::prelude::*;
use crate::error::Error;

verus! {

/// The open master side of a pseudo-terminal. The value stands for the
/// descriptor's ownership, so it can be moved and not copied: whoever holds
/// it last closes the descriptor.
#[derive(Debug, PartialEq, Eq)]
pub struct MasterHandle {
    pub fd: i32,
}

/// An allocated pair: the open master, and the path under which the worker
/// opens the slave.
#[derive(Debug, PartialEq, Eq)]
pub struct PseudoTerminal {
    pub master: MasterHandle,
    pub slave_path: String,
}

/// What came of the request that the allocation asked for last.
#[derive(Debug, PartialEq, Eq)]
pub enum AllocEvent {
    /// The master was opened under this descriptor.
    Opened(i32),
    /// Access to the master was granted.
    Granted,
    /// The slave was unlocked.
    Unlocked,
    /// The slave's path was resolved.
    Resolved(String),
    /// The request failed.
    Failed,
}

/// What the allocation asks for next.
#[derive(Debug, PartialEq, Eq)]
pub enum AllocAction {
    /// Open a new master.
    Open,
    /// Grant access to the master with this descriptor.
    Grant(i32),
    /// Unlock the slave of the master with this descriptor.
    Unlock(i32),
    /// Resolve the path of the slave of the master with this descriptor.
    Resolve(i32),
    /// The pair is allocated; nothing is left to do.
    Done(PseudoTerminal),
    /// The allocation has failed with `error`. Where a master had been
    /// opened, `release` hands it back to be closed.
    Abort { error: Error, release: Option<MasterHandle> },
}

/// How far an allocation has come.
#[derive(Debug, PartialEq, Eq)]
pub enum PtyPair {
    /// The master has been asked for.
    Opening,
    /// The master is open; access to it has been asked for.
    Granting(MasterHandle),
    /// Access is granted; the unlocking has been asked for.
    Unlocking(MasterHandle),
    /// The slave is unlocked; its path has been asked for.
    Resolving(MasterHandle),
    /// The allocation is over, with a pair or with an abort.
    Closed,
}

impl AllocAction {
    /// The master that an action hands out: to its owner with the finished
    /// pair, or to be closed with an abort.
    pub open spec fn handed_out(self) -> Option<MasterHandle> {
        match self {
            AllocAction::Done(pty) => Some(pty.master),
            AllocAction::Abort { error: _, release } => release,
            _ => None,
        }
    }
}

impl PtyPair {
    /// The master that an allocation holds at this stage, if any.
    pub open spec fn held(self) -> Option<MasterHandle> {
        match self {
            PtyPair::Granting(master) => Some(master),
            PtyPair::Unlocking(master) => Some(master),
            PtyPair::Resolving(master) => Some(master),
            _ => None,
        }
    }

    /// The master that the allocation has in hand once `event` has arrived:
    /// the one it held, or the one that the event reports as opened.
    pub open spec fn in_hand(self, event: AllocEvent) -> Option<MasterHandle> {
        match (self, event) {
            (PtyPair::Opening, AllocEvent::Opened(fd)) => if fd >= 0 {
                Some(MasterHandle { fd })
            } else {
                None
            },
            _ => self.held(),
        }
    }

    /// The abort that ends an allocation at this stage.
    pub open spec fn abort(self) -> (PtyPair, AllocAction) {
        (PtyPair::Closed, AllocAction::Abort { error: Error::PtyAllocation, release: self.held() })
    }

    /// The stage and the action that follow `event` at this stage. Only the
    /// outcome that the stage waits for leads on; a descriptor below zero,
    /// a failure, and any outcome out of turn abort the allocation.
    pub open spec fn after(self, event: AllocEvent) -> (PtyPair, AllocAction) {
        match (self, event) {
            (PtyPair::Opening, AllocEvent::Opened(fd)) => if fd >= 0 {
                (PtyPair::Granting(MasterHandle { fd }), AllocAction::Grant(fd))
            } else {
                self.abort()
            },
            (PtyPair::Granting(master), AllocEvent::Granted) => (
                PtyPair::Unlocking(master),
                AllocAction::Unlock(master.fd),
            ),
            (PtyPair::Unlocking(master), AllocEvent::Unlocked) => (
                PtyPair::Resolving(master),
                AllocAction::Resolve(master.fd),
            ),
            (PtyPair::Resolving(master), AllocEvent::Resolved(path)) => (
                PtyPair::Closed,
                AllocAction::Done(PseudoTerminal { master, slave_path: path }),
            ),
            _ => self.abort(),
        }
    }

    /// Starts an allocation: nothing is open yet, and the first request is
    /// to open a master.
    pub fn begin() -> (start: (PtyPair, AllocAction))
        ensures
            start == (PtyPair::Opening, AllocAction::Open),
    {
        (PtyPair::Opening, AllocAction::Open)
    }

    /// Takes the outcome of the last request and says what to do next.
    pub fn step(self, event: AllocEvent) -> (next: (PtyPair, AllocAction))
        ensures
            next == self.after(event),
    {
        match self {
            PtyPair::Opening => match event {
                AllocEvent::Opened(fd) => if fd >= 0 {
                    (PtyPair::Granting(MasterHandle { fd }), AllocAction::Grant(fd))
                } else {
                    (PtyPair::Closed, AllocAction::Abort { error: Error::PtyAllocation, release: None })
                },
                _ => (PtyPair::Closed, AllocAction::Abort { error: Error::PtyAllocation, release: None }),
            },
            PtyPair::Granting(master) => match event {
                AllocEvent::Granted => {
                    let fd = master.fd;
                    (PtyPair::Unlocking(master), AllocAction::Unlock(fd))
                },
                _ => (
                    PtyPair::Closed,
                    AllocAction::Abort { error: Error::PtyAllocation, release: Some(master) },
                ),
            },
            PtyPair::Unlocking(master) => match event {
                AllocEvent::Unlocked => {
                    let fd = master.fd;
                    (PtyPair::Resolving(master), AllocAction::Resolve(fd))
                },
                _ => (
                    PtyPair::Closed,
                    AllocAction::Abort { error: Error::PtyAllocation, release: Some(master) },
                ),
            },
            PtyPair::Resolving(master) => match event {
                AllocEvent::Resolved(path) => (
                    PtyPair::Closed,
                    AllocAction::Done(PseudoTerminal { master, slave_path: path }),
                ),
                _ => (
                    PtyPair::Closed,
                    AllocAction::Abort { error: Error::PtyAllocation, release: Some(master) },
                ),
            },
            PtyPair::Closed => (
                PtyPair::Closed,
                AllocAction::Abort { error: Error::PtyAllocation, release: None },
            ),
        }
    }
}

/// The master has one owner at every step. The master that an allocation
/// has in hand when an event arrives is afterwards either still held by the
/// allocation, or handed out by the action, with the pair or to be closed:
/// one of the two, never both and never neither. An allocation that has
/// nothing in hand holds nothing afterwards and hands nothing out.
pub proof fn lemma_master_has_one_owner(stage: PtyPair, event: AllocEvent)
    ensures
        ({
            let (next, action) = stage.after(event);
            let in_hand = stage.in_hand(event);
            ||| next.held() == in_hand && action.handed_out() is None
            ||| next.held() is None && action.handed_out() == in_hand
        }),
{
}

/// The four requests come in their order. A pair is handed out only at the
/// resolution of the path, which is asked for only after the unlocking,
/// which is asked for only after the grant, which is asked for only after a
/// master has been opened; and the pair holds that master and that path.
/// Every failure aborts with `PtyAllocation`.
pub proof fn lemma_allocation_keeps_order(stage: PtyPair, event: AllocEvent)
    ensures
        ({
            let (next, action) = stage.after(event);
            &&& next is Granting ==> stage is Opening && event is Opened
            &&& next is Unlocking ==> stage is Granting && event is Granted
            &&& next is Resolving ==> stage is Unlocking && event is Unlocked
            &&& action matches AllocAction::Done(pty) ==> {
                &&& stage matches PtyPair::Resolving(master)
                &&& event matches AllocEvent::Resolved(path)
                &&& pty == PseudoTerminal { master, slave_path: path }
            }
            &&& action matches AllocAction::Abort { error, release } ==> {
                &&& error == Error::PtyAllocation
                &&& next is Closed
            }
            &&& event is Failed ==> action is Abort
            &&& !(next is Opening)
        }),
{
}

} // verus!
