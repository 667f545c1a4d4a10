//! The status of a session and the steps it may take.

use vstd::prelude::*;
use crate::error::Error;

verus! {

/// Why a session ended without an exit outcome of its worker.
#[derive(Clone, Copy, Debug, PartialEq, Eq, Structural)]
pub enum FailureReason {
    /// A pump failed on the transport.
    TransportIo,
    /// A pump failed on the master side of the pseudo-terminal.
    PtyIo,
    /// Waiting for the worker failed.
    ChildWaitFailure,
}

/// How a worker process ended.
#[derive(Clone, Copy, Debug, PartialEq, Eq, Structural)]
pub enum ExitOutcome {
    /// The worker left with this exit code.
    Exited(i32),
    /// The worker was ended by this signal.
    Killed(i32),
}

/// Where a session stands in its life.
#[derive(Clone, Copy, Debug, PartialEq, Eq, Structural)]
pub enum Status {
    /// The pseudo-terminal exists, the worker does not yet.
    Starting,
    /// The worker runs.
    Active,
    /// The worker left with this exit code.
    Exited(i32),
    /// The worker was ended by this signal.
    Killed(i32),
    /// The session was torn down for this reason.
    Failed(FailureReason),
}

impl FailureReason {
    /// The error that a failure stands for.
    pub open spec fn as_error(self) -> Error {
        match self {
            FailureReason::TransportIo => Error::TransportIo,
            FailureReason::PtyIo => Error::PtyIo,
            FailureReason::ChildWaitFailure => Error::ChildWaitFailure,
        }
    }

    /// Names the failure as an error.
    pub fn error(self) -> (error: Error)
        ensures
            error == self.as_error(),
    {
        match self {
            FailureReason::TransportIo => Error::TransportIo,
            FailureReason::PtyIo => Error::PtyIo,
            FailureReason::ChildWaitFailure => Error::ChildWaitFailure,
        }
    }
}

impl ExitOutcome {
    /// The terminal status that records this outcome.
    pub open spec fn status(self) -> Status {
        match self {
            ExitOutcome::Exited(code) => Status::Exited(code),
            ExitOutcome::Killed(signal) => Status::Killed(signal),
        }
    }
}

impl Status {
    /// A terminal status is one that a session never leaves.
    pub open spec fn terminal(self) -> bool {
        self is Exited || self is Killed || self is Failed
    }

    /// The phase of a status: 0 while starting, 1 while active, 2 at the end.
    pub open spec fn phase(self) -> nat {
        match self {
            Status::Starting => 0,
            Status::Active => 1,
            _ => 2,
        }
    }

    /// The single steps of a session's life: from starting to active, and
    /// from active to one of the terminal statuses.
    pub open spec fn steps_to(self, next: Status) -> bool {
        ||| self is Starting && next is Active
        ||| self is Active && next.terminal()
    }

    /// A status advances to itself and to whatever it steps to.
    pub open spec fn advances_to(self, next: Status) -> bool {
        self == next || self.steps_to(next)
    }

    /// What a status can become in any number of steps: itself, or a status
    /// of a later phase.
    pub open spec fn reaches(self, later: Status) -> bool {
        self == later || self.phase() < later.phase()
    }

    /// The status after the worker has been created.
    pub open spec fn after_spawn(self) -> Status {
        if self is Starting {
            Status::Active
        } else {
            self
        }
    }

    /// The status after the worker's end has been observed.
    pub open spec fn after_exit(self, outcome: ExitOutcome) -> Status {
        if self is Active {
            outcome.status()
        } else {
            self
        }
    }

    /// The status after the session has been torn down for `reason`.
    pub open spec fn after_failure(self, reason: FailureReason) -> Status {
        if self is Active {
            Status::Failed(reason)
        } else {
            self
        }
    }

    /// The error with which a session ended, where it ended as failed.
    pub fn error(&self) -> (error: Option<Error>)
        ensures
            error == (match *self {
                Status::Failed(reason) => Some(reason.as_error()),
                _ => None,
            }),
    {
        match self {
            Status::Failed(reason) => Some(reason.error()),
            _ => None,
        }
    }

    /// Tells whether the session has ended.
    pub fn is_terminal(&self) -> (b: bool)
        ensures
            b == self.terminal(),
    {
        match self {
            Status::Starting => false,
            Status::Active => false,
            _ => true,
        }
    }

    /// Records that the worker has been created. Only a starting session
    /// becomes active; any other status stays as it is.
    pub fn on_spawn(self) -> (next: Status)
        ensures
            next == self.after_spawn(),
            self.advances_to(next),
    {
        match self {
            Status::Starting => Status::Active,
            other => other,
        }
    }

    /// Records the end of the worker. Only an active session takes the
    /// outcome; a starting session does not skip ahead, and a session that
    /// has ended keeps the status it ended with.
    pub fn on_exit(self, outcome: ExitOutcome) -> (next: Status)
        ensures
            next == self.after_exit(outcome),
            self.advances_to(next),
    {
        match self {
            Status::Active => match outcome {
                ExitOutcome::Exited(code) => Status::Exited(code),
                ExitOutcome::Killed(signal) => Status::Killed(signal),
            },
            other => other,
        }
    }

    /// Records a failure that tears the session down. Only an active session
    /// takes it.
    pub fn on_failure(self, reason: FailureReason) -> (next: Status)
        ensures
            next == self.after_failure(reason),
            self.advances_to(next),
    {
        match self {
            Status::Active => Status::Failed(reason),
            other => other,
        }
    }
}

/// Every step of a session's life moves it forward by exactly one phase, so
/// no session reaches a terminal status without having been active, none
/// goes back, and none leaves a terminal status.
pub proof fn lemma_steps_move_one_phase(from: Status, to: Status)
    requires
        from.steps_to(to),
    ensures
        to.phase() == from.phase() + 1,
        !from.terminal(),
        !(to is Starting),
        from is Starting ==> to is Active,
        to.terminal() ==> from is Active,
{
}

/// Advancing never lowers the phase, whatever the length of the path, and a
/// terminal status advances to itself alone.
pub proof fn lemma_advance_is_an_order(a: Status, b: Status, c: Status)
    requires
        a.advances_to(b),
        b.advances_to(c),
    ensures
        a.phase() <= b.phase() <= c.phase(),
        a.terminal() ==> b == a && c == a,
        b.advances_to(a) ==> a == b,
        a.phase() == c.phase() ==> a == c,
{
}

} // verus!
