//! Reading the reports of a wait for the worker.

use vstd::prelude::*;
use crate::launcher::ChildId;
use crate::status::ExitOutcome;

verus! {

/// What one wait for a process reported.
#[derive(Clone, Copy, Debug, PartialEq, Eq, Structural)]
pub enum WaitReport {
    /// The process `pid` left with the exit code `code`.
    Exited { pid: i32, code: i32 },
    /// The process `pid` was ended by the signal `signal`.
    Signaled { pid: i32, signal: i32 },
    /// The process `pid` was stopped and still exists.
    Stopped { pid: i32 },
    /// The process `pid` was let go on after a stop.
    Continued { pid: i32 },
    /// Nothing has changed yet.
    StillAlive,
    /// The wait itself failed.
    Failed,
}

/// What a watch concludes from a report.
#[derive(Clone, Copy, Debug, PartialEq, Eq, Structural)]
pub enum Verdict {
    /// The worker has not ended: wait again.
    Pending,
    /// The worker has ended in this way.
    Finished(ExitOutcome),
    /// The worker's end cannot be observed.
    Lost,
}

/// The verdict on `report` for the worker `child`. Only a report of the
/// end of `child` itself finishes the watch; a failed wait loses it; every
/// other report, of a stop, of a continuation, of no change or of another
/// process, leaves it pending.
pub open spec fn verdict_of(child: ChildId, report: WaitReport) -> Verdict {
    match report {
        WaitReport::Exited { pid, code } => if pid == child.0 {
            Verdict::Finished(ExitOutcome::Exited(code))
        } else {
            Verdict::Pending
        },
        WaitReport::Signaled { pid, signal } => if pid == child.0 {
            Verdict::Finished(ExitOutcome::Killed(signal))
        } else {
            Verdict::Pending
        },
        WaitReport::Failed => Verdict::Lost,
        _ => Verdict::Pending,
    }
}

/// Reads one report of a wait for the worker `child`.
pub fn watch(child: ChildId, report: WaitReport) -> (verdict: Verdict)
    ensures
        verdict == verdict_of(child, report),
{
    match report {
        WaitReport::Exited { pid, code } => if pid == child.0 {
            Verdict::Finished(ExitOutcome::Exited(code))
        } else {
            Verdict::Pending
        },
        WaitReport::Signaled { pid, signal } => if pid == child.0 {
            Verdict::Finished(ExitOutcome::Killed(signal))
        } else {
            Verdict::Pending
        },
        WaitReport::Failed => Verdict::Lost,
        WaitReport::Stopped { pid: _ } => Verdict::Pending,
        WaitReport::Continued { pid: _ } => Verdict::Pending,
        WaitReport::StillAlive => Verdict::Pending,
    }
}

} // verus!
