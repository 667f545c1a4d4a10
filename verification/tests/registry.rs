use pty_session::bridge::{BridgeHandle, InboundEvent, OutboundEvent, PumpState};
use pty_session::error::Error;
use pty_session::launcher::{ChildId, Launched};
use pty_session::monitor::Verdict;
use pty_session::pty::MasterHandle;
use pty_session::registry::{FollowUp, SessionRegistry, Teardown};
use pty_session::session::{BridgeSlot, Session, SessionId};
use pty_session::status::{ExitOutcome, FailureReason, Status};

fn launched(fd: i32, pid: i32) -> Result<Launched, Error> {
    Ok(Launched { master: MasterHandle { fd }, child: ChildId(pid) })
}

fn registry_with_one() -> (SessionRegistry, SessionId) {
    let mut registry = SessionRegistry::new();
    let id = registry.create(launched(5, 100), 1_000).unwrap();
    (registry, id)
}

/// Runs a bridge to its end, stopped by `fault` or by the end of the
/// worker's side.
fn finished(mut handle: BridgeHandle, fault: Option<FailureReason>) -> BridgeHandle {
    match fault {
        Some(FailureReason::PtyIo) => handle.outbound_step(OutboundEvent::ReadFailed),
        Some(_) => handle.outbound_step(OutboundEvent::SendFailed),
        None => handle.outbound_step(OutboundEvent::Read(Vec::new())),
    };
    assert!(handle.acknowledge());
    assert_eq!(handle.fault(), fault);
    handle
}

/// A finished bridge of another registry, which names the session `number`
/// of that registry.
fn foreign_bridge(number: u64, fault: Option<FailureReason>) -> BridgeHandle {
    let mut other = SessionRegistry::new();
    let mut id = other.create(launched(90, 900), 0).unwrap();
    while id.0 < number {
        id = other.create(launched(90, 900), 0).unwrap();
    }
    finished(other.attach_transport(id).unwrap(), fault)
}

#[test]
fn a_new_registry_is_empty() {
    let registry = SessionRegistry::new();
    assert_eq!(registry.len(), 0);
    assert_eq!(registry.tokens_issued(), 0);
    assert_eq!(registry.status(SessionId(0)), Err(Error::NotFound));
    assert!(registry.session(SessionId(0)).is_none());
}

#[test]
fn create_registers_an_active_session() {
    let mut registry = SessionRegistry::new();
    let id = registry.create(launched(5, 100), 1_700_000_000_123).unwrap();
    assert_eq!(id, SessionId(0));
    assert_eq!(registry.len(), 1);
    assert_eq!(registry.tokens_issued(), 1);
    assert_eq!(registry.status(id), Ok(Status::Active));
    assert_eq!(
        registry.session(id),
        Some(&Session {
            id: SessionId(0),
            master: MasterHandle { fd: 5 },
            child: ChildId(100),
            status: Status::Active,
            created_at: 1_700_000_000_123,
            bridge: BridgeSlot::Vacant,
        })
    );
}

#[test]
fn every_session_gets_a_token_of_its_own() {
    let mut registry = SessionRegistry::new();
    let first = registry.create(launched(5, 100), 1).unwrap();
    let second = registry.create(launched(6, 101), 1).unwrap();
    let third = registry.create(launched(7, 102), 1).unwrap();
    assert_eq!(first, SessionId(0));
    assert_eq!(second, SessionId(1));
    assert_eq!(third, SessionId(2));
    assert_eq!(registry.len(), 3);
    assert_eq!(registry.session(second).unwrap().child, ChildId(101));
}

#[test]
fn a_token_is_not_issued_again_after_a_removal() {
    let (mut registry, first) = registry_with_one();
    registry.conclude(first, Verdict::Finished(ExitOutcome::Exited(0))).unwrap();
    assert_eq!(registry.remove(first), Some(MasterHandle { fd: 5 }));
    let second = registry.create(launched(5, 200), 2).unwrap();
    assert_eq!(second, SessionId(1));
    assert_eq!(registry.status(first), Err(Error::NotFound));
    assert_eq!(registry.len(), 1);
}

#[test]
fn a_failed_allocation_registers_nothing() {
    let mut registry = SessionRegistry::new();
    assert_eq!(registry.create(Err(Error::PtyAllocation), 5), Err(Error::PtyAllocation));
    assert_eq!(registry.len(), 0);
    assert_eq!(registry.tokens_issued(), 0);
}

#[test]
fn a_failed_spawn_registers_nothing() {
    let (mut registry, id) = registry_with_one();
    assert_eq!(registry.create(Err(Error::SpawnFailure), 5), Err(Error::SpawnFailure));
    assert_eq!(registry.len(), 1);
    assert_eq!(registry.tokens_issued(), 1);
    assert_eq!(registry.status(id), Ok(Status::Active));
}

#[test]
fn create_keeps_the_time_it_is_given() {
    let mut registry = SessionRegistry::new();
    let first = registry.create(launched(9, 300), -5).unwrap();
    let second = registry.create(launched(10, 301), i64::MAX).unwrap();
    assert_eq!(registry.session(first).unwrap().created_at, -5);
    assert_eq!(registry.session(second).unwrap().created_at, i64::MAX);
}

#[test]
fn status_of_an_unknown_session_is_not_found() {
    let (registry, _) = registry_with_one();
    assert_eq!(registry.status(SessionId(77)), Err(Error::NotFound));
}

#[test]
fn attach_hands_out_a_running_bridge() {
    let (mut registry, id) = registry_with_one();
    let handle = registry.attach_transport(id).unwrap();
    assert_eq!(handle.session_id(), id);
    assert_eq!(handle.outbound(), PumpState::Running);
    assert_eq!(handle.inbound(), PumpState::Running);
    assert_eq!(handle.fault(), None);
    assert_eq!(registry.session(id).unwrap().bridge, BridgeSlot::Attached);
    assert_eq!(registry.status(id), Ok(Status::Active));
}

#[test]
fn a_second_attach_is_refused_and_changes_nothing() {
    let (mut registry, id) = registry_with_one();
    registry.attach_transport(id).unwrap();
    let before = format!("{:?}", registry.session(id));
    assert_eq!(registry.attach_transport(id), Err(Error::AlreadyAttached));
    assert_eq!(registry.attach_transport(id), Err(Error::AlreadyAttached));
    assert_eq!(format!("{:?}", registry.session(id)), before);
    assert_eq!(registry.len(), 1);
    assert_eq!(registry.tokens_issued(), 1);
}

#[test]
fn attach_to_an_unknown_session_is_not_found() {
    let (mut registry, id) = registry_with_one();
    assert_eq!(registry.attach_transport(SessionId(9)), Err(Error::NotFound));
    assert_eq!(registry.session(id).unwrap().bridge, BridgeSlot::Vacant);
}

#[test]
fn attach_to_an_ended_session_is_not_found() {
    let (mut registry, id) = registry_with_one();
    registry.conclude(id, Verdict::Finished(ExitOutcome::Exited(0))).unwrap();
    assert_eq!(registry.attach_transport(id), Err(Error::NotFound));
    assert_eq!(registry.session(id).unwrap().bridge, BridgeSlot::Vacant);
}

#[test]
fn an_ended_session_with_a_bridge_is_not_found_either() {
    let (mut registry, id) = registry_with_one();
    registry.attach_transport(id).unwrap();
    registry.conclude(id, Verdict::Finished(ExitOutcome::Killed(9))).unwrap();
    assert_eq!(registry.attach_transport(id), Err(Error::NotFound));
}

#[test]
fn a_finished_bridge_is_not_replaced() {
    let (mut registry, id) = registry_with_one();
    let handle = registry.attach_transport(id).unwrap();
    registry.bridge_stopped(&finished(handle, None));
    assert_eq!(registry.session(id).unwrap().bridge, BridgeSlot::Finished);
    assert_eq!(registry.status(id), Ok(Status::Active));
    assert_eq!(registry.attach_transport(id), Err(Error::AlreadyAttached));
}

#[test]
fn the_end_of_a_bridge_ends_the_worker() {
    let (mut registry, id) = registry_with_one();
    let handle = registry.attach_transport(id).unwrap();
    let teardown = registry.bridge_stopped(&finished(handle, None));
    assert_eq!(teardown, Teardown::Terminate(ChildId(100)));
    assert_eq!(registry.status(id), Ok(Status::Active));
    assert_eq!(registry.session(id).unwrap().bridge, BridgeSlot::Finished);
}

#[test]
fn a_failed_bridge_fails_the_session() {
    let (mut registry, id) = registry_with_one();
    let handle = registry.attach_transport(id).unwrap();
    let teardown = registry.bridge_stopped(&finished(handle, Some(FailureReason::TransportIo)));
    assert_eq!(teardown, Teardown::Terminate(ChildId(100)));
    assert_eq!(registry.status(id), Ok(Status::Failed(FailureReason::TransportIo)));
    assert_eq!(registry.status(id).unwrap().error(), Some(Error::TransportIo));

    let (mut other, other_id) = registry_with_one();
    let handle = other.attach_transport(other_id).unwrap();
    other.bridge_stopped(&finished(handle, Some(FailureReason::PtyIo)));
    assert_eq!(other.status(other_id), Ok(Status::Failed(FailureReason::PtyIo)));
    assert_eq!(other.status(other_id).unwrap().error(), Some(Error::PtyIo));
}

#[test]
fn a_bridge_that_ends_after_the_worker_changes_no_status() {
    let (mut registry, id) = registry_with_one();
    let handle = registry.attach_transport(id).unwrap();
    registry.conclude(id, Verdict::Finished(ExitOutcome::Exited(0))).unwrap();
    let teardown = registry.bridge_stopped(&finished(handle, Some(FailureReason::PtyIo)));
    assert_eq!(teardown, Teardown::Nothing);
    assert_eq!(registry.status(id), Ok(Status::Exited(0)));
    assert_eq!(registry.session(id).unwrap().bridge, BridgeSlot::Finished);
}

#[test]
fn a_running_bridge_is_not_taken_as_ended() {
    let (mut registry, id) = registry_with_one();
    let mut handle = registry.attach_transport(id).unwrap();
    assert_eq!(registry.bridge_stopped(&handle), Teardown::Nothing);
    handle.inbound_step(InboundEvent::Closed);
    assert_eq!(registry.bridge_stopped(&handle), Teardown::Nothing);
    assert_eq!(registry.session(id).unwrap().bridge, BridgeSlot::Attached);
    handle.outbound_step(OutboundEvent::Read(Vec::new()));
    assert_eq!(registry.bridge_stopped(&handle), Teardown::Terminate(ChildId(100)));
    assert_eq!(registry.session(id).unwrap().bridge, BridgeSlot::Finished);
}

#[test]
fn the_end_of_an_unknown_bridge_changes_nothing() {
    let (mut registry, id) = registry_with_one();
    assert_eq!(registry.bridge_stopped(&foreign_bridge(3, None)), Teardown::Nothing);
    assert_eq!(
        registry.bridge_stopped(&foreign_bridge(id.0, Some(FailureReason::PtyIo))),
        Teardown::Nothing
    );
    assert_eq!(registry.status(id), Ok(Status::Active));
    assert_eq!(registry.session(id).unwrap().bridge, BridgeSlot::Vacant);
}

#[test]
fn the_end_of_a_bridge_is_taken_once() {
    let (mut registry, id) = registry_with_one();
    let handle = finished(registry.attach_transport(id).unwrap(), None);
    assert_eq!(registry.bridge_stopped(&handle), Teardown::Terminate(ChildId(100)));
    assert_eq!(registry.bridge_stopped(&handle), Teardown::Nothing);
    assert_eq!(registry.status(id), Ok(Status::Active));
}

#[test]
fn terminate_asks_for_the_end_of_a_running_worker() {
    let (registry, id) = registry_with_one();
    assert_eq!(registry.terminate(id), Ok(Teardown::Terminate(ChildId(100))));
    assert_eq!(registry.status(id), Ok(Status::Active));
}

#[test]
fn terminate_of_an_ended_session_asks_for_nothing() {
    let (mut registry, id) = registry_with_one();
    registry.conclude(id, Verdict::Finished(ExitOutcome::Exited(2))).unwrap();
    assert_eq!(registry.terminate(id), Ok(Teardown::Nothing));
    assert_eq!(registry.status(id), Ok(Status::Exited(2)));
}

#[test]
fn terminate_of_an_unknown_session_is_not_found() {
    let (registry, _) = registry_with_one();
    assert_eq!(registry.terminate(SessionId(3)), Err(Error::NotFound));
}

#[test]
fn a_pending_verdict_changes_nothing() {
    let (mut registry, id) = registry_with_one();
    assert_eq!(registry.conclude(id, Verdict::Pending), Ok(FollowUp::KeepWatching));
    assert_eq!(registry.status(id), Ok(Status::Active));
}

#[test]
fn the_end_of_the_worker_settles_the_session() {
    let (mut registry, id) = registry_with_one();
    assert_eq!(
        registry.conclude(id, Verdict::Finished(ExitOutcome::Exited(0))),
        Ok(FollowUp::Settled)
    );
    assert_eq!(registry.status(id), Ok(Status::Exited(0)));

    let (mut other, other_id) = registry_with_one();
    assert_eq!(
        other.conclude(other_id, Verdict::Finished(ExitOutcome::Killed(15))),
        Ok(FollowUp::Settled)
    );
    assert_eq!(other.status(other_id), Ok(Status::Killed(15)));
}

#[test]
fn a_lost_watch_fails_the_session() {
    let (mut registry, id) = registry_with_one();
    assert_eq!(registry.conclude(id, Verdict::Lost), Ok(FollowUp::Settled));
    assert_eq!(registry.status(id), Ok(Status::Failed(FailureReason::ChildWaitFailure)));
    assert_eq!(registry.status(id).unwrap().error(), Some(Error::ChildWaitFailure));
    assert_eq!(registry.remove(id), Some(MasterHandle { fd: 5 }));
}

#[test]
fn a_verdict_on_an_unknown_session_is_not_found() {
    let (mut registry, id) = registry_with_one();
    assert_eq!(
        registry.conclude(SessionId(8), Verdict::Finished(ExitOutcome::Exited(0))),
        Err(Error::NotFound)
    );
    assert_eq!(registry.conclude(SessionId(8), Verdict::Pending), Err(Error::NotFound));
    assert_eq!(registry.status(id), Ok(Status::Active));
}

#[test]
fn the_first_end_is_the_one_that_counts() {
    let (mut registry, id) = registry_with_one();
    registry.conclude(id, Verdict::Finished(ExitOutcome::Exited(7))).unwrap();
    assert_eq!(
        registry.conclude(id, Verdict::Finished(ExitOutcome::Killed(9))),
        Ok(FollowUp::Settled)
    );
    assert_eq!(registry.conclude(id, Verdict::Lost), Ok(FollowUp::Settled));
    assert_eq!(registry.status(id), Ok(Status::Exited(7)));
}

#[test]
fn an_attached_bridge_is_drained_when_the_worker_ends() {
    let (mut registry, id) = registry_with_one();
    let handle = registry.attach_transport(id).unwrap();
    assert_eq!(
        registry.conclude(id, Verdict::Finished(ExitOutcome::Exited(0))),
        Ok(FollowUp::DrainBridge)
    );
    assert_eq!(registry.status(id), Ok(Status::Exited(0)));
    assert_eq!(registry.conclude(id, Verdict::Pending), Ok(FollowUp::KeepWatching));
    registry.bridge_stopped(&finished(handle, None));
    assert_eq!(
        registry.conclude(id, Verdict::Finished(ExitOutcome::Exited(0))),
        Ok(FollowUp::Settled)
    );
}

#[test]
fn a_running_session_is_not_removed() {
    let (mut registry, id) = registry_with_one();
    assert_eq!(registry.remove(id), None);
    assert_eq!(registry.status(id), Ok(Status::Active));
    assert_eq!(registry.len(), 1);
}

#[test]
fn an_ended_session_is_removed_once() {
    let (mut registry, id) = registry_with_one();
    registry.conclude(id, Verdict::Finished(ExitOutcome::Exited(0))).unwrap();
    assert_eq!(registry.status(id), Ok(Status::Exited(0)));
    assert_eq!(registry.remove(id), Some(MasterHandle { fd: 5 }));
    assert_eq!(registry.remove(id), None);
    assert_eq!(registry.status(id), Err(Error::NotFound));
    assert_eq!(registry.len(), 0);
    assert_eq!(registry.tokens_issued(), 1);
}

#[test]
fn a_session_with_a_running_bridge_is_not_removed() {
    let (mut registry, id) = registry_with_one();
    let handle = registry.attach_transport(id).unwrap();
    registry.conclude(id, Verdict::Finished(ExitOutcome::Exited(0))).unwrap();
    assert_eq!(registry.remove(id), None);
    assert_eq!(registry.status(id), Ok(Status::Exited(0)));
    registry.bridge_stopped(&finished(handle, None));
    assert_eq!(registry.remove(id), Some(MasterHandle { fd: 5 }));
}

#[test]
fn removing_an_unknown_session_gives_nothing() {
    let (mut registry, _) = registry_with_one();
    assert_eq!(registry.remove(SessionId(4)), None);
    assert_eq!(registry.len(), 1);
}

#[test]
fn sessions_do_not_touch_each_other() {
    let mut registry = SessionRegistry::new();
    let first = registry.create(launched(5, 100), 1).unwrap();
    let second = registry.create(launched(6, 101), 2).unwrap();
    let handle = registry.attach_transport(first).unwrap();
    registry.bridge_stopped(&finished(handle, Some(FailureReason::TransportIo)));
    assert_eq!(registry.status(first), Ok(Status::Failed(FailureReason::TransportIo)));
    assert_eq!(registry.status(second), Ok(Status::Active));
    assert_eq!(registry.session(second).unwrap().bridge, BridgeSlot::Vacant);
    assert_eq!(registry.remove(first), Some(MasterHandle { fd: 5 }));
    assert_eq!(registry.status(second), Ok(Status::Active));
    assert_eq!(registry.attach_transport(second).unwrap().session_id(), second);
}

#[test]
fn a_failed_launch_is_taken_whatever_the_tokens() {
    let mut registry = SessionRegistry::new();
    assert_eq!(registry.create(Err(Error::PtyAllocation), 0), Err(Error::PtyAllocation));
    registry.create(launched(5, 100), 0).unwrap();
    assert_eq!(registry.create(Err(Error::SpawnFailure), 0), Err(Error::SpawnFailure));
    assert_eq!(registry.tokens_issued(), 1);
}

#[test]
fn an_unfinished_bridge_of_another_registry_is_passed_over() {
    let (mut registry, id) = registry_with_one();
    registry.attach_transport(id).unwrap();
    let mut other = SessionRegistry::new();
    let other_id = other.create(launched(90, 900), 0).unwrap();
    let foreign = other.attach_transport(other_id).unwrap();
    assert_eq!(registry.bridge_stopped(&foreign), Teardown::Nothing);
    assert_eq!(registry.session(id).unwrap().bridge, BridgeSlot::Attached);
}
