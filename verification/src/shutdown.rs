use vstd::prelude::*;

use crate::errors::Error;
use crate::workdir::DataDir;

verus! {

/// Whether the supervised process is still owned as running, as the handle
/// tracks it: `stop` moves it to `Exited` once the blocking wait returns.
#[derive(Debug, PartialEq, Eq, Structural, Clone, Copy)]
pub enum ProcessState {
    /// The process has not been waited on yet.
    Running,
    /// The process has exited and been reaped.
    Exited,
}

/// What disposal of a handle must do, per work-directory kind. The shell
/// carries the two steps out in order.
#[derive(Debug, PartialEq, Eq, Structural, Clone, Copy)]
pub struct DisposalPlan {
    /// Attempt a graceful stop through the control endpoint first, with any
    /// error swallowed: done only for a persistent directory, whose state is
    /// worth a clean shutdown.
    pub graceful_first: bool,
    /// Send the forceful termination signal afterward as a safety net,
    /// idempotent if the process already exited: done unconditionally, so
    /// no disposal path can leak a running process.
    pub force_kill: bool,
}

/// The disposal policy for a handle owning this work directory.
///
/// Whatever the directory kind, the plan ends in a forceful kill: a
/// disposed handle never leaves the process running.
pub fn disposal_plan(dir: &DataDir) -> (p: DisposalPlan)
    ensures
        p.graceful_first == dir.is_persistent(),
        p.force_kill,
{
    let graceful = match dir {
        DataDir::Persistent(_) => true,
        DataDir::Temporary(_) => false,
    };
    DisposalPlan { graceful_first: graceful, force_kill: true }
}

/// One explicit `stop` call: a graceful-stop request through the control
/// endpoint, then a blocking wait for the exit status.
///
/// On a running process the request is delivered and the wait returns
/// `wait_status`; on a process that has already exited the request cannot
/// be delivered, and the call is a well-defined error, leaving the state
/// unchanged.
pub open spec fn spec_stop_step(st: ProcessState, wait_status: i32) -> (ProcessState, Result<
    i32,
    Error,
>) {
    match st {
        ProcessState::Running => (ProcessState::Exited, Ok(wait_status)),
        ProcessState::Exited => (ProcessState::Exited, Err(Error::Rpc())),
    }
}

/// Decide what one explicit `stop` call returns, given the state of the
/// process and the status the blocking wait would report.
pub fn stop_step(st: ProcessState, wait_status: i32) -> (r: (ProcessState, Result<i32, Error>))
    ensures
        r == spec_stop_step(st, wait_status),
{
    match st {
        ProcessState::Running => (ProcessState::Exited, Ok(wait_status)),
        ProcessState::Exited => (ProcessState::Exited, Err(Error::Rpc())),
    }
}

/// Stopping the same handle twice: the first call succeeds with the awaited
/// status and leaves the process exited; the second is a well-defined error
/// — the process is already gone — and changes nothing.
pub proof fn lemma_stop_twice(s1: i32, s2: i32)
    ensures
        spec_stop_step(ProcessState::Running, s1).1 == Ok::<i32, Error>(s1),
        spec_stop_step(ProcessState::Running, s1).0 is Exited,
        spec_stop_step(spec_stop_step(ProcessState::Running, s1).0, s2).1 is Err,
        spec_stop_step(spec_stop_step(ProcessState::Running, s1).0, s2).0 is Exited,
{
}

} // verus!
