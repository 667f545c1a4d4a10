//! The histories of a registry, and what holds of all of them.
//!
//! The ledger of a registry is what the registry shows, and
//! `Ledger::apply` gives the ledger after one operation. The laws of this
//! module hold of every well-formed ledger and of every run of operations.

use vstd::prelude::*;
use crate::bridge::{BridgeState, InboundEvent, OutboundEvent};
use crate::error::Error;
use crate::launcher::{worker_action_after, WorkerAction, WorkerStep, WORKER_FAILURE_STATUS};
use crate::monitor::{verdict_of, Verdict, WaitReport};
use crate::registry::{
    after_attach, after_bridge_stopped, after_conclude, after_remove, attach_error, removable,
    table_advances, teardown_after_bridge, terminate_outcome, Ledger, Operation, Teardown,
};
use crate::session::{Session, SessionId};
use crate::status::{ExitOutcome, Status};

verus! {

impl Ledger {
    /// Whether an operation hands out the master of the session under
    /// `key`: only the removal of that session does, where it is granted.
    pub open spec fn hands_out(self, operation: Operation, key: u64) -> bool {
        operation matches Operation::Remove { id } && id.0 == key && removable(self.table, id)
    }

    /// How often a run of operations hands out the master of the session
    /// under `key`.
    pub open spec fn handed_out(self, operations: Seq<Operation>, key: u64) -> nat
        decreases operations.len(),
    {
        if operations.len() == 0 {
            0
        } else {
            let first: nat = if self.hands_out(operations.first(), key) {
                1
            } else {
                0
            };
            first + self.apply(operations.first()).handed_out(operations.drop_first(), key)
        }
    }

    /// The ledger after a run of operations, the first of them first.
    pub open spec fn replay(self, operations: Seq<Operation>) -> Ledger
        decreases operations.len(),
    {
        if operations.len() == 0 {
            self
        } else {
            self.apply(operations.first()).replay(operations.drop_first())
        }
    }
}

/// One operation moves every session by one step at most. Whatever is
/// asked of a registry, a session that stays keeps its identity, its master
/// and its worker, its status stays or takes a single step forward, and its
/// bridge slot does not go back. A session leaves the table only after it
/// has ended, and one that enters it is active, under a token that was not
/// issued before.
pub proof fn lemma_operation_advances(ledger: Ledger, operation: Operation)
    requires
        ledger.wf(),
    ensures
        ledger.apply(operation).wf(),
        ledger.issued <= ledger.apply(operation).issued,
        table_advances(ledger.table, ledger.apply(operation).table),
        forall|key: u64|
            #![trigger ledger.table[key]]
            ledger.table.contains_key(key) && !ledger.apply(operation).table.contains_key(key)
                ==> ledger.table[key].status.terminal(),
        forall|key: u64|
            #![trigger ledger.apply(operation).table[key]]
            !ledger.table.contains_key(key) && ledger.apply(operation).table.contains_key(key) ==> {
                &&& key == ledger.issued
                &&& ledger.apply(operation).table[key].status is Active
            },
{
}

/// A token is not issued twice: a number below those issued that the table
/// does not hold stays out of the table for good.
pub proof fn lemma_tokens_are_not_reused(ledger: Ledger, operations: Seq<Operation>, key: u64)
    requires
        ledger.wf(),
        key < ledger.issued,
        !ledger.table.contains_key(key),
    ensures
        !ledger.replay(operations).table.contains_key(key),
    decreases operations.len(),
{
    if operations.len() > 0 {
        lemma_operation_advances(ledger, operations.first());
        lemma_tokens_are_not_reused(
            ledger.apply(operations.first()),
            operations.drop_first(),
            key,
        );
    }
}

/// A run of operations keeps a registry well formed and never takes back a
/// token.
pub proof fn lemma_replay_keeps_wf(ledger: Ledger, operations: Seq<Operation>)
    requires
        ledger.wf(),
    ensures
        ledger.replay(operations).wf(),
        ledger.issued <= ledger.replay(operations).issued,
    decreases operations.len(),
{
    if operations.len() > 0 {
        lemma_operation_advances(ledger, operations.first());
        lemma_replay_keeps_wf(ledger.apply(operations.first()), operations.drop_first());
    }
}

/// The life of a session has one direction. Over any run of operations a
/// session that is still in the table is the session it was: its status is
/// the one it had or one of a later phase, so it never goes back and never
/// leaves a terminal status, and its bridge slot has not gone back.
pub proof fn lemma_history_has_one_direction(
    ledger: Ledger,
    operations: Seq<Operation>,
    key: u64,
)
    requires
        ledger.wf(),
        ledger.table.contains_key(key),
        ledger.replay(operations).table.contains_key(key),
    ensures
        ledger.table[key].reaches(ledger.replay(operations).table[key]),
    decreases operations.len(),
{
    if operations.len() > 0 {
        let next = ledger.apply(operations.first());
        lemma_operation_advances(ledger, operations.first());
        if next.table.contains_key(key) {
            assert(ledger.table[key].evolves_to(next.table[key]));
            lemma_history_has_one_direction(next, operations.drop_first(), key);
        } else {
            lemma_tokens_are_not_reused(next, operations.drop_first(), key);
        }
    }
}

/// The master of a session that is gone is handed out no more.
proof fn lemma_gone_is_gone(ledger: Ledger, operations: Seq<Operation>, key: u64)
    requires
        ledger.wf(),
        key < ledger.issued,
        !ledger.table.contains_key(key),
    ensures
        ledger.handed_out(operations, key) == 0,
    decreases operations.len(),
{
    if operations.len() > 0 {
        lemma_operation_advances(ledger, operations.first());
        lemma_gone_is_gone(ledger.apply(operations.first()), operations.drop_first(), key);
    }
}

/// The master of a session is handed out exactly once. Over any run of
/// operations, the master of a session that the registry held at the start
/// has not been handed out while the registry still holds the session, and
/// has been handed out once, at its removal, when the registry holds the
/// session no more. Whoever closes what is handed out closes each master
/// once, and none is left behind.
pub proof fn lemma_master_is_handed_out_once(
    ledger: Ledger,
    operations: Seq<Operation>,
    key: u64,
)
    requires
        ledger.wf(),
        ledger.table.contains_key(key),
    ensures
        ledger.handed_out(operations, key) == (if ledger.replay(operations).table.contains_key(
            key,
        ) {
            0nat
        } else {
            1nat
        }),
    decreases operations.len(),
{
    if operations.len() > 0 {
        let next = ledger.apply(operations.first());
        lemma_operation_advances(ledger, operations.first());
        if next.table.contains_key(key) {
            lemma_master_is_handed_out_once(next, operations.drop_first(), key);
        } else {
            lemma_gone_is_gone(next, operations.drop_first(), key);
            lemma_tokens_are_not_reused(next, operations.drop_first(), key);
        }
    }
}

/// A session is given a bridge at most once. After a bridge has been
/// attached to a session, no run of operations brings the registry to
/// accept another for it.
pub proof fn lemma_one_bridge_for_ever(ledger: Ledger, operations: Seq<Operation>, id: SessionId)
    requires
        ledger.wf(),
        ledger.table.contains_key(id.0),
        !(ledger.table[id.0].bridge is Vacant),
    ensures
        attach_error(ledger.replay(operations).table, id) is Some,
        after_attach(ledger.replay(operations).table, id) == ledger.replay(operations).table,
{
    if ledger.replay(operations).table.contains_key(id.0) {
        lemma_history_has_one_direction(ledger, operations, id.0);
    }
}

/// A second attempt to attach fails and changes nothing: where an attempt
/// has succeeded, the next one on the same session is refused as already
/// attached and leaves the table as the first one left it.
pub proof fn lemma_second_attach_is_refused(table: Map<u64, Session>, id: SessionId)
    requires
        attach_error(table, id) is None,
    ensures
        attach_error(after_attach(table, id), id) == Some(Error::AlreadyAttached),
        after_attach(after_attach(table, id), id) == after_attach(table, id),
{
}

/// Closing the transport of a running session tears the session down and
/// releases its master once.
///
/// Take an active session with a bridge whose pumps both run. When the
/// transport is closed, the inbound pump stops without a failure, and the
/// outbound pump stops as soon as it takes note, or at its next event,
/// whatever that is. The end of the
/// bridge then asks for the end of the worker; once that end is recorded
/// the session has the terminal status of the outcome; it can then be
/// removed, which hands out the master it was created with; and after that
/// the registry holds the session no more, so that nothing hands out the
/// master again.
pub proof fn lemma_transport_close_tears_down(
    table: Map<u64, Session>,
    handle: BridgeState,
    wake: OutboundEvent,
    outcome: ExitOutcome,
)
    requires
        table.contains_key(handle.session_id.0),
        table[handle.session_id.0].status is Active,
        table[handle.session_id.0].bridge is Attached,
        handle.inbound is Running,
        handle.outbound is Running,
        handle.fault is None,
    ensures
        ({
            let id = handle.session_id;
            let closed = handle.after_inbound(InboundEvent::Closed).0;
            let stopped = closed.after_outbound(wake).0;
            let torn = after_bridge_stopped(table, stopped);
            let settled = after_conclude(torn, id, Verdict::Finished(outcome));
            let emptied = after_remove(settled, id);
            &&& stopped.finished()
            &&& stopped.fault is None
            &&& closed.acknowledged() == stopped
            &&& teardown_after_bridge(table, stopped) == Teardown::Terminate(table[id.0].child)
            &&& torn[id.0].status is Active
            &&& settled[id.0].status == outcome.status()
            &&& settled[id.0].status.terminal()
            &&& settled[id.0].master == table[id.0].master
            &&& removable(settled, id)
            &&& !emptied.contains_key(id.0)
            &&& !removable(emptied, id)
        }),
{
}

/// A worker that cannot become the target program is seen to fail. Whatever
/// step of the worker fails, the worker leaves with the failure status; the
/// report of that exit finishes the watch on the worker; and recording it
/// ends an active session as exited with that status.
pub proof fn lemma_worker_failure_is_reported(
    table: Map<u64, Session>,
    id: SessionId,
    failed: WorkerStep,
)
    requires
        table.contains_key(id.0),
        table[id.0].status is Active,
    ensures
        ({
            let child = table[id.0].child;
            let report = WaitReport::Exited { pid: child.0, code: WORKER_FAILURE_STATUS };
            let verdict = verdict_of(child, report);
            &&& worker_action_after(failed, false) == WorkerAction::Exit(WORKER_FAILURE_STATUS)
            &&& worker_action_after(WorkerStep::Exec, true) == WorkerAction::Exit(
                WORKER_FAILURE_STATUS,
            )
            &&& verdict == Verdict::Finished(ExitOutcome::Exited(WORKER_FAILURE_STATUS))
            &&& after_conclude(table, id, verdict)[id.0].status == Status::Exited(
                WORKER_FAILURE_STATUS,
            )
            &&& terminate_outcome(after_conclude(table, id, verdict), id) == Ok::<Teardown, Error>(
                Teardown::Nothing,
            )
        }),
{
}

} // verus!
