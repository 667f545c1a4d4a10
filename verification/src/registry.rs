//! The registry of sessions.
//!
//! The registry owns every session from its creation to its removal and is
//! the only place where the status of a session changes. Its view is its
//! ledger: the map from the number of a session's token to the session, and
//! the number of tokens issued. Every operation that changes a registry is
//! an `Operation`, and `Ledger::apply` says what it does to the ledger.

use std::collections::HashMap;
use vstd::prelude::*;
use crate::bridge::{BridgeHandle, BridgeState};
use crate::error::Error;
use crate::launcher::{ChildId, Launched};
use crate::monitor::Verdict;
use crate::pty::MasterHandle;
use crate::session::{BridgeSlot, Session, SessionId};
use crate::status::{FailureReason, Status};

verus! {

broadcast use vstd::std_specs::hash::group_hash_axioms;

/// What is to be done to the worker of a session that is torn down.
#[derive(Clone, Copy, Debug, PartialEq, Eq, Structural)]
pub enum Teardown {
    /// Nothing: the session has ended, or it is not concerned.
    Nothing,
    /// Signal this worker to end, then wait for its end.
    Terminate(ChildId),
}

/// What is to be done after a verdict on the worker has been recorded.
#[derive(Clone, Copy, Debug, PartialEq, Eq, Structural)]
pub enum FollowUp {
    /// The worker has not ended: go on watching.
    KeepWatching,
    /// The session is settled, and its bridge still runs: let the outbound
    /// pump forward what the pseudo-terminal still holds. The pump stops at
    /// the first read that holds no bytes; whoever drives it bounds the time
    /// it waits for that read and reports such a read when the time is up.
    DrainBridge,
    /// The session is settled and no bridge runs.
    Settled,
}

/// The session that a successful launch makes: it has been starting, and
/// with its worker it is active; no bridge is attached.
pub open spec fn new_session(key: u64, launched: Launched, now: i64) -> Session {
    Session {
        id: SessionId(key),
        master: launched.master,
        child: launched.child,
        status: Status::Starting.after_spawn(),
        created_at: now,
        bridge: BridgeSlot::Vacant,
    }
}

/// Whether `table` holds a session under `id` that has not ended.
pub open spec fn is_live(table: Map<u64, Session>, id: SessionId) -> bool {
    table.contains_key(id.0) && !table[id.0].status.terminal()
}

/// The error with which an attempt to attach a bridge to `id` is refused,
/// or `None` where it is granted: `NotFound` where the table holds no such
/// session or the session has ended, and `AlreadyAttached` where the session
/// has been given a bridge before.
pub open spec fn attach_error(table: Map<u64, Session>, id: SessionId) -> Option<Error> {
    if !is_live(table, id) {
        Some(Error::NotFound)
    } else if !(table[id.0].bridge is Vacant) {
        Some(Error::AlreadyAttached)
    } else {
        None
    }
}

/// The table after an attempt to attach a bridge to `id`.
pub open spec fn after_attach(table: Map<u64, Session>, id: SessionId) -> Map<u64, Session> {
    if attach_error(table, id) is None {
        table.insert(id.0, Session { bridge: BridgeSlot::Attached, ..table[id.0] })
    } else {
        table
    }
}

/// Whether the end of `handle` concerns `table`: the bridge is finished and
/// its session is known as having a bridge attached.
pub open spec fn bridge_stop_applies(table: Map<u64, Session>, handle: BridgeState) -> bool {
    &&& handle.finished()
    &&& table.contains_key(handle.session_id.0)
    &&& table[handle.session_id.0].bridge is Attached
}

/// The status of a session after its bridge has ended with `fault`.
pub open spec fn status_after_bridge(status: Status, fault: Option<FailureReason>) -> Status {
    match fault {
        Some(reason) => status.after_failure(reason),
        None => status,
    }
}

/// The table after the end of `handle` has been reported.
pub open spec fn after_bridge_stopped(table: Map<u64, Session>, handle: BridgeState) -> Map<
    u64,
    Session,
> {
    if bridge_stop_applies(table, handle) {
        let session = table[handle.session_id.0];
        table.insert(
            handle.session_id.0,
            Session {
                bridge: BridgeSlot::Finished,
                status: status_after_bridge(session.status, handle.fault),
                ..session
            },
        )
    } else {
        table
    }
}

/// What the end of `handle` asks for: the worker of a session that was
/// still active is to be ended.
pub open spec fn teardown_after_bridge(table: Map<u64, Session>, handle: BridgeState) -> Teardown {
    if bridge_stop_applies(table, handle) && table[handle.session_id.0].status is Active {
        Teardown::Terminate(table[handle.session_id.0].child)
    } else {
        Teardown::Nothing
    }
}

/// What a request to terminate `id` returns.
pub open spec fn terminate_outcome(table: Map<u64, Session>, id: SessionId) -> Result<
    Teardown,
    Error,
> {
    if !table.contains_key(id.0) {
        Err(Error::NotFound)
    } else if table[id.0].status.terminal() {
        Ok(Teardown::Nothing)
    } else {
        Ok(Teardown::Terminate(table[id.0].child))
    }
}

/// The status of a session after `verdict` has been recorded.
pub open spec fn status_after_verdict(status: Status, verdict: Verdict) -> Status {
    match verdict {
        Verdict::Pending => status,
        Verdict::Finished(outcome) => status.after_exit(outcome),
        Verdict::Lost => status.after_failure(FailureReason::ChildWaitFailure),
    }
}

/// The table after `verdict` on the worker of `id` has been recorded.
pub open spec fn after_conclude(table: Map<u64, Session>, id: SessionId, verdict: Verdict) -> Map<
    u64,
    Session,
> {
    if table.contains_key(id.0) {
        table.insert(
            id.0,
            Session { status: status_after_verdict(table[id.0].status, verdict), ..table[id.0] },
        )
    } else {
        table
    }
}

/// What recording `verdict` on the worker of `id` returns.
pub open spec fn conclude_outcome(
    table: Map<u64, Session>,
    id: SessionId,
    verdict: Verdict,
) -> Result<FollowUp, Error> {
    if !table.contains_key(id.0) {
        Err(Error::NotFound)
    } else if verdict is Pending {
        Ok(FollowUp::KeepWatching)
    } else if table[id.0].bridge is Attached {
        Ok(FollowUp::DrainBridge)
    } else {
        Ok(FollowUp::Settled)
    }
}

/// Whether the session `id` can be removed: it is known, it has ended, and
/// no bridge of it runs any more.
pub open spec fn removable(table: Map<u64, Session>, id: SessionId) -> bool {
    &&& table.contains_key(id.0)
    &&& table[id.0].status.terminal()
    &&& !(table[id.0].bridge is Attached)
}

/// The table after an attempt to remove `id`.
pub open spec fn after_remove(table: Map<u64, Session>, id: SessionId) -> Map<u64, Session> {
    if removable(table, id) {
        table.remove(id.0)
    } else {
        table
    }
}

/// Whether one table can follow another: every session that both hold has
/// evolved, in the sense of `Session::evolves_to`.
pub open spec fn table_advances(before: Map<u64, Session>, after: Map<u64, Session>) -> bool {
    forall|key: u64|
        #![trigger after[key]]
        before.contains_key(key) && after.contains_key(key) ==> before[key].evolves_to(after[key])
}

/// What a registry shows: its table, and the number of tokens it has
/// issued.
#[verifier::ext_equal]
pub struct Ledger {
    pub table: Map<u64, Session>,
    pub issued: nat,
}

/// What can be asked of a registry that may change it.
pub enum Operation {
    Create { launch: Result<Launched, Error>, now: i64 },
    Attach { id: SessionId },
    BridgeStopped { handle: BridgeState },
    Conclude { id: SessionId, verdict: Verdict },
    Remove { id: SessionId },
}

impl Ledger {
    /// What holds of the ledger of every registry: each session stands
    /// under the number of its own token, that number is one of those
    /// issued, and no session is still starting.
    pub open spec fn wf(self) -> bool {
        forall|key: u64|
            #![trigger self.table[key]]
            self.table.contains_key(key) ==> {
                &&& key < self.issued
                &&& self.table[key].id == SessionId(key)
                &&& !(self.table[key].status is Starting)
            }
    }

    /// The ledger after one operation. A creation registers the session of
    /// a successful launch under the next token, while a token is left to
    /// issue, and changes nothing for a failed launch.
    pub open spec fn apply(self, operation: Operation) -> Ledger {
        match operation {
            Operation::Create { launch, now } => match launch {
                Ok(launched) => if self.issued < u64::MAX {
                    Ledger {
                        table: self.table.insert(
                            self.issued as u64,
                            new_session(self.issued as u64, launched, now),
                        ),
                        issued: self.issued + 1,
                    }
                } else {
                    self
                },
                Err(_) => self,
            },
            Operation::Attach { id } => Ledger {
                table: after_attach(self.table, id),
                issued: self.issued,
            },
            Operation::BridgeStopped { handle } => Ledger {
                table: after_bridge_stopped(self.table, handle),
                issued: self.issued,
            },
            Operation::Conclude { id, verdict } => Ledger {
                table: after_conclude(self.table, id, verdict),
                issued: self.issued,
            },
            Operation::Remove { id } => Ledger {
                table: after_remove(self.table, id),
                issued: self.issued,
            },
        }
    }
}

/// The registry of sessions.
pub struct SessionRegistry {
    sessions: HashMap<u64, Session>,
    next_key: u64,
}

impl View for SessionRegistry {
    type V = Ledger;

    closed spec fn view(&self) -> Ledger {
        Ledger { table: self.sessions@, issued: self.next_key as nat }
    }
}

impl SessionRegistry {
    /// What holds of every registry; see `Ledger::wf`.
    pub open spec fn wf(&self) -> bool {
        self@.wf()
    }

    /// Makes a registry without sessions.
    pub fn new() -> (registry: SessionRegistry)
        ensures
            registry.wf(),
            registry@ == (Ledger { table: Map::<u64, Session>::empty(), issued: 0 }),
    {
        SessionRegistry { sessions: HashMap::new(), next_key: 0 }
    }

    /// The number of tokens issued so far. The next session gets this
    /// number as its token.
    pub fn tokens_issued(&self) -> (count: u64)
        ensures
            count == self@.issued,
    {
        self.next_key
    }

    /// Registers the session that `launch` has made, as created at `now`,
    /// in milliseconds since the start of 1970.
    ///
    /// A failed launch leaves the registry as it was and its error is
    /// returned. A successful one is registered under a token that no
    /// session has had before: the session has passed from starting to
    /// active, and no bridge is attached to it. A registry that has issued
    /// its last token takes no successful launch.
    pub fn create(&mut self, launch: Result<Launched, Error>, now: i64) -> (result: Result<
        SessionId,
        Error,
    >)
        requires
            old(self).wf(),
            launch is Ok ==> old(self)@.issued < u64::MAX,
        ensures
            final(self).wf(),
            final(self)@ == old(self)@.apply(Operation::Create { launch, now }),
            table_advances(old(self)@.table, final(self)@.table),
            result == (match launch {
                Ok(_) => Ok::<SessionId, Error>(SessionId(old(self)@.issued as u64)),
                Err(error) => Err::<SessionId, Error>(error),
            }),
    {
        match launch {
            Err(error) => Err(error),
            Ok(launched) => {
                let key = self.next_key;
                let Launched { master, child } = launched;
                let status = Status::Starting.on_spawn();
                let session = Session {
                    id: SessionId(key),
                    master,
                    child,
                    status,
                    created_at: now,
                    bridge: BridgeSlot::Vacant,
                };
                self.sessions.insert(key, session);
                self.next_key = key + 1;
                Ok(SessionId(key))
            },
        }
    }

    /// The status of the session `id`, or `NotFound` where the registry
    /// holds no such session. A session that has ended keeps its status
    /// until it is removed.
    pub fn status(&self, id: SessionId) -> (result: Result<Status, Error>)
        ensures
            result == (if self@.table.contains_key(id.0) {
                Ok::<Status, Error>(self@.table[id.0].status)
            } else {
                Err::<Status, Error>(Error::NotFound)
            }),
    {
        match self.sessions.get(&id.0) {
            Some(session) => Ok(session.status),
            None => Err(Error::NotFound),
        }
    }

    /// The session `id`, where the registry holds it.
    pub fn session(&self, id: SessionId) -> (found: Option<&Session>)
        ensures
            match found {
                Some(session) => self@.table.contains_key(id.0) && *session == self@.table[id.0],
                None => !self@.table.contains_key(id.0),
            },
    {
        self.sessions.get(&id.0)
    }

    /// The number of sessions that the registry holds.
    pub fn len(&self) -> (count: usize)
        ensures
            count == self@.table.len(),
    {
        self.sessions.len()
    }

    /// Takes the session under `key` out of the table, if there is one.
    fn take(&mut self, key: u64) -> (taken: Option<Session>)
        ensures
            final(self)@.issued == old(self)@.issued,
            match taken {
                Some(session) => {
                    &&& old(self)@.table.contains_key(key)
                    &&& session == old(self)@.table[key]
                    &&& final(self)@.table == old(self)@.table.remove(key)
                },
                None => {
                    &&& !old(self)@.table.contains_key(key)
                    &&& final(self)@.table == old(self)@.table
                },
            },
    {
        self.sessions.remove(&key)
    }

    /// Puts `session` into the table under `key`.
    fn put(&mut self, key: u64, session: Session)
        ensures
            final(self)@.issued == old(self)@.issued,
            final(self)@.table == old(self)@.table.insert(key, session),
    {
        self.sessions.insert(key, session);
    }

    /// Attaches a bridge to the session `id` and returns its handle, with
    /// both pumps running.
    ///
    /// It fails with `NotFound` where the registry holds no such session or
    /// the session has ended, and with `AlreadyAttached` where the session
    /// has been given a bridge before, whether that bridge still runs or
    /// not. A failed attempt changes nothing.
    pub fn attach_transport(&mut self, id: SessionId) -> (result: Result<BridgeHandle, Error>)
        requires
            old(self).wf(),
        ensures
            final(self).wf(),
            final(self)@ == old(self)@.apply(Operation::Attach { id }),
            table_advances(old(self)@.table, final(self)@.table),
            match result {
                Ok(handle) => {
                    &&& attach_error(old(self)@.table, id) is None
                    &&& handle@ == BridgeState::fresh(id)
                },
                Err(error) => {
                    &&& attach_error(old(self)@.table, id) == Some(error)
                    &&& final(self)@ == old(self)@
                },
            },
    {
        match self.take(id.0) {
            None => Err(Error::NotFound),
            Some(session) => {
                let Session { id: own, master, child, status, created_at, bridge } = session;
                let live = !status.is_terminal();
                let vacant = matches!(bridge, BridgeSlot::Vacant);
                let attached = if live && vacant {
                    BridgeSlot::Attached
                } else {
                    bridge
                };
                self.put(id.0, Session { id: own, master, child, status, created_at, bridge: attached });
                assert(self@.table =~= after_attach(old(self)@.table, id));
                if !live {
                    Err(Error::NotFound)
                } else if !vacant {
                    Err(Error::AlreadyAttached)
                } else {
                    Ok(BridgeHandle::attach(id))
                }
            },
        }
    }

    /// Takes note that the bridge `handle` has ended.
    ///
    /// Where `handle` is finished and its session is known as having a
    /// bridge attached, the session's bridge is marked as finished, a
    /// failure that stopped the bridge ends an active session with that
    /// failure, and the worker of a session that was active is to be ended.
    /// In every other case nothing changes and nothing is to be done.
    ///
    /// A handle is taken by what it shows. Handles are made by
    /// `attach_transport` alone, so a registry gets no second handle for a
    /// session of its own; a handle that another registry has issued for a
    /// session of the same number is not told apart from its own.
    pub fn bridge_stopped(&mut self, handle: &BridgeHandle) -> (teardown: Teardown)
        requires
            old(self).wf(),
        ensures
            final(self).wf(),
            final(self)@ == old(self)@.apply(Operation::BridgeStopped { handle: handle@ }),
            table_advances(old(self)@.table, final(self)@.table),
            teardown == teardown_after_bridge(old(self)@.table, handle@),
    {
        if !handle.is_finished() {
            return Teardown::Nothing;
        }
        let key = handle.session_id().0;
        match self.take(key) {
            None => Teardown::Nothing,
            Some(session) => {
                let Session { id, master, child, status, created_at, bridge } = session;
                if matches!(bridge, BridgeSlot::Attached) {
                    let was_active = matches!(status, Status::Active);
                    let settled = match handle.fault() {
                        Some(reason) => status.on_failure(reason),
                        None => status,
                    };
                    self.put(
                        key,
                        Session {
                            id,
                            master,
                            child,
                            status: settled,
                            created_at,
                            bridge: BridgeSlot::Finished,
                        },
                    );
                    assert(self@.table =~= after_bridge_stopped(old(self)@.table, handle@));
                    if was_active {
                        Teardown::Terminate(child)
                    } else {
                        Teardown::Nothing
                    }
                } else {
                    self.put(key, Session { id, master, child, status, created_at, bridge });
                    assert(self@.table =~= old(self)@.table);
                    Teardown::Nothing
                }
            },
        }
    }

    /// Says what is to be done to terminate the session `id`: the worker of
    /// a session that has not ended is to be signalled and waited for, and
    /// nothing is to be done for one that has ended. The status changes only
    /// when the end of the worker is recorded with `conclude`.
    pub fn terminate(&self, id: SessionId) -> (result: Result<Teardown, Error>)
        ensures
            result == terminate_outcome(self@.table, id),
    {
        match self.sessions.get(&id.0) {
            None => Err(Error::NotFound),
            Some(session) => if session.status.is_terminal() {
                Ok(Teardown::Nothing)
            } else {
                Ok(Teardown::Terminate(session.child))
            },
        }
    }

    /// Records the verdict of the watch on the worker of the session `id`.
    ///
    /// A pending verdict changes nothing. The end of the worker gives an
    /// active session its terminal status; a lost watch ends an active
    /// session as failed. A session that has ended keeps the status it
    /// ended with. Where the verdict is not pending and the session's bridge
    /// is still attached, the bridge is to be drained.
    pub fn conclude(&mut self, id: SessionId, verdict: Verdict) -> (result: Result<FollowUp, Error>)
        requires
            old(self).wf(),
        ensures
            final(self).wf(),
            final(self)@ == old(self)@.apply(Operation::Conclude { id, verdict }),
            table_advances(old(self)@.table, final(self)@.table),
            result == conclude_outcome(old(self)@.table, id, verdict),
    {
        match self.take(id.0) {
            None => Err(Error::NotFound),
            Some(session) => {
                let Session { id: own, master, child, status, created_at, bridge } = session;
                let settled = match verdict {
                    Verdict::Pending => status,
                    Verdict::Finished(outcome) => status.on_exit(outcome),
                    Verdict::Lost => status.on_failure(FailureReason::ChildWaitFailure),
                };
                self.put(id.0, Session { id: own, master, child, status: settled, created_at, bridge });
                assert(self@.table =~= after_conclude(old(self)@.table, id, verdict));
                if matches!(verdict, Verdict::Pending) {
                    Ok(FollowUp::KeepWatching)
                } else if matches!(bridge, BridgeSlot::Attached) {
                    Ok(FollowUp::DrainBridge)
                } else {
                    Ok(FollowUp::Settled)
                }
            },
        }
    }

    /// Removes the session `id` and hands out its master, which is then to
    /// be closed. Only a session that has ended and whose bridge, if it had
    /// one, is finished can be removed; in every other case nothing changes
    /// and `None` is returned.
    pub fn remove(&mut self, id: SessionId) -> (released: Option<MasterHandle>)
        requires
            old(self).wf(),
        ensures
            final(self).wf(),
            final(self)@ == old(self)@.apply(Operation::Remove { id }),
            table_advances(old(self)@.table, final(self)@.table),
            released == (if removable(old(self)@.table, id) {
                Some(old(self)@.table[id.0].master)
            } else {
                None
            }),
    {
        match self.take(id.0) {
            None => None,
            Some(session) => {
                if session.status.is_terminal() && !matches!(session.bridge, BridgeSlot::Attached) {
                    Some(session.master)
                } else {
                    self.put(id.0, session);
                    assert(self@.table =~= old(self)@.table);
                    None
                }
            },
        }
    }
}

} // verus!
