//! Creation of the worker process on the slave side of a pseudo-terminal.
//!
//! Creating the worker splits one flow of control into two. The supervisor
//! keeps the master and learns the worker's identity. The worker makes
//! itself the head of a new session, opens the slave by its path, binds it
//! as its three standard streams, closes the two descriptors it has no use
//! for, and becomes the target program. This module holds both halves as
//! rules: `spawn` is what the supervisor concludes from the outcome of the
//! split, and `first_step` and `next_step` lead the worker through its
//! steps. The worker never comes back from them: a step that fails ends it
//! with `WORKER_FAILURE_STATUS`, and the supervisor learns of that only from
//! the exit status of the worker.

use vstd::prelude::*;
use crate::error::Error;
use crate::pty::{MasterHandle, PseudoTerminal};

verus! {

/// The exit status of a worker that could not become the target program.
/// The target program may leave with the same status of its own accord; the
/// two cannot be told apart from outside.
pub const WORKER_FAILURE_STATUS: i32 = 1;

/// The identity of a worker process.
#[derive(Clone, Copy, Debug, PartialEq, Eq, Structural)]
pub struct ChildId(pub i32);

/// What the supervisor holds after the worker has been created.
#[derive(Debug, PartialEq, Eq)]
pub struct Launched {
    pub master: MasterHandle,
    pub child: ChildId,
}

/// A spawn that failed: the error, and the master to be closed.
#[derive(Debug, PartialEq, Eq)]
pub struct SpawnAborted {
    pub error: Error,
    pub release: MasterHandle,
}

/// What the worker needs to know when it starts.
#[derive(Debug, PartialEq, Eq)]
pub struct WorkerPlan {
    /// The path under which the worker opens the slave.
    pub slave_path: String,
    /// The inherited descriptor of the master, which the worker closes.
    pub master_fd: i32,
    /// The program, followed by its arguments.
    pub argv: Vec<String>,
}

/// The steps of the worker, in their order.
#[derive(Clone, Copy, Debug, PartialEq, Eq, Structural)]
pub enum WorkerStep {
    /// Become the head of a new session.
    NewSession,
    /// Open the slave by its path.
    OpenSlave,
    /// Bind the slave as standard input.
    BindStdin,
    /// Bind the slave as standard output.
    BindStdout,
    /// Bind the slave as standard error.
    BindStderr,
    /// Close the descriptor under which the slave was opened.
    CloseSlave,
    /// Close the inherited descriptor of the master.
    CloseMaster,
    /// Replace the process image by the target program.
    Exec,
}

/// What the worker does next.
#[derive(Clone, Copy, Debug, PartialEq, Eq, Structural)]
pub enum WorkerAction {
    /// Perform this step.
    Run(WorkerStep),
    /// Leave at once with this exit status.
    Exit(i32),
}

impl WorkerStep {
    /// The place of a step in the worker's order, counted from zero.
    pub open spec fn index(self) -> nat {
        match self {
            WorkerStep::NewSession => 0,
            WorkerStep::OpenSlave => 1,
            WorkerStep::BindStdin => 2,
            WorkerStep::BindStdout => 3,
            WorkerStep::BindStderr => 4,
            WorkerStep::CloseSlave => 5,
            WorkerStep::CloseMaster => 6,
            WorkerStep::Exec => 7,
        }
    }
}

/// What follows a step that was performed with the outcome `ok`. A step
/// that succeeded is followed by the next in order. A step that failed ends
/// the worker, and so does a return from `Exec`, which returns only where
/// it has failed.
pub open spec fn worker_action_after(done: WorkerStep, ok: bool) -> WorkerAction {
    if !ok {
        WorkerAction::Exit(WORKER_FAILURE_STATUS)
    } else {
        match done {
            WorkerStep::NewSession => WorkerAction::Run(WorkerStep::OpenSlave),
            WorkerStep::OpenSlave => WorkerAction::Run(WorkerStep::BindStdin),
            WorkerStep::BindStdin => WorkerAction::Run(WorkerStep::BindStdout),
            WorkerStep::BindStdout => WorkerAction::Run(WorkerStep::BindStderr),
            WorkerStep::BindStderr => WorkerAction::Run(WorkerStep::CloseSlave),
            WorkerStep::CloseSlave => WorkerAction::Run(WorkerStep::CloseMaster),
            WorkerStep::CloseMaster => WorkerAction::Run(WorkerStep::Exec),
            WorkerStep::Exec => WorkerAction::Exit(WORKER_FAILURE_STATUS),
        }
    }
}

/// What the supervisor concludes from the split. `forked` is the identity
/// of the worker, or `None` where no worker could be created. A worker has
/// an identity above zero; anything else counts as none.
pub open spec fn spawn_result(pty: PseudoTerminal, forked: Option<i32>) -> Result<
    Launched,
    SpawnAborted,
> {
    match forked {
        Some(pid) if pid > 0 => Ok(Launched { master: pty.master, child: ChildId(pid) }),
        _ => Err(SpawnAborted { error: Error::SpawnFailure, release: pty.master }),
    }
}

/// The step with which every worker begins.
pub fn first_step() -> (step: WorkerStep)
    ensures
        step == WorkerStep::NewSession,
{
    WorkerStep::NewSession
}

/// Says what the worker does after the step `done` has been performed with
/// the outcome `ok`.
pub fn next_step(done: WorkerStep, ok: bool) -> (action: WorkerAction)
    ensures
        action == worker_action_after(done, ok),
{
    if !ok {
        return WorkerAction::Exit(WORKER_FAILURE_STATUS);
    }
    match done {
        WorkerStep::NewSession => WorkerAction::Run(WorkerStep::OpenSlave),
        WorkerStep::OpenSlave => WorkerAction::Run(WorkerStep::BindStdin),
        WorkerStep::BindStdin => WorkerAction::Run(WorkerStep::BindStdout),
        WorkerStep::BindStdout => WorkerAction::Run(WorkerStep::BindStderr),
        WorkerStep::BindStderr => WorkerAction::Run(WorkerStep::CloseSlave),
        WorkerStep::CloseSlave => WorkerAction::Run(WorkerStep::CloseMaster),
        WorkerStep::CloseMaster => WorkerAction::Run(WorkerStep::Exec),
        WorkerStep::Exec => WorkerAction::Exit(WORKER_FAILURE_STATUS),
    }
}

/// Puts together what the worker of `pty` needs: the slave's path, the
/// master's descriptor, and the argument vector, which is `program`
/// followed by `args` as they are.
pub fn plan(pty: &PseudoTerminal, program: &String, args: &Vec<String>) -> (plan: WorkerPlan)
    ensures
        plan.slave_path == pty.slave_path,
        plan.master_fd == pty.master.fd,
        plan.argv@ == seq![*program] + args@,
{
    let mut argv: Vec<String> = Vec::new();
    argv.push(program.clone());
    let mut i: usize = 0;
    while i < args.len()
        invariant
            i <= args.len(),
            argv@ == seq![*program] + args@.take(i as int),
        decreases args.len() - i,
    {
        argv.push(args[i].clone());
        i = i + 1;
    }
    WorkerPlan { slave_path: pty.slave_path.clone(), master_fd: pty.master.fd, argv }
}

/// Concludes the split on the supervisor's side. With a worker, the
/// supervisor keeps the master beside the worker's identity, and the slave's
/// path is dropped: the supervisor never opens the slave. Without one, the
/// spawn has failed and the master is handed back to be closed.
pub fn spawn(pty: PseudoTerminal, forked: Option<i32>) -> (result: Result<Launched, SpawnAborted>)
    ensures
        result == spawn_result(pty, forked),
{
    let PseudoTerminal { master, slave_path: _ } = pty;
    match forked {
        Some(pid) => if pid > 0 {
            Ok(Launched { master, child: ChildId(pid) })
        } else {
            Err(SpawnAborted { error: Error::SpawnFailure, release: master })
        },
        None => Err(SpawnAborted { error: Error::SpawnFailure, release: master }),
    }
}

/// The worker goes through its steps in their order and never comes back.
/// A step that succeeded is followed by the step of the next place, the
/// first step has the first place, and whatever ends the worker ends it
/// with the failure status, which is not the status of success. A step that
/// failed always ends it.
pub proof fn lemma_worker_keeps_order(done: WorkerStep, ok: bool)
    ensures
        WorkerStep::NewSession.index() == 0,
        worker_action_after(done, ok) matches WorkerAction::Run(step) ==> ok && step.index()
            == done.index() + 1,
        worker_action_after(done, ok) matches WorkerAction::Exit(status) ==> status
            == WORKER_FAILURE_STATUS && status != 0,
        !ok ==> worker_action_after(done, ok) is Exit,
{
}

} // verus!
