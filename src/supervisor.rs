//! What happens after a run: a grace period for buffered output, then the
//! worker either parks forever (success) or hands its failure to the thread
//! that hosts it, which treats any failure as fatal to the process.
use vstd::prelude::*;
use crate::bringup::BringUpError;

verus! {

/// Seconds waited after a run, whatever its outcome.
pub const GRACE_PERIOD_SECS: u64 = 5;

/// Seconds each idle iteration suspends for.
pub const IDLE_INTERVAL_SECS: u64 = 1;

/// Stack size of the worker that hosts the run, in bytes.
pub const WORKER_STACK_BYTES: usize = 60000;

/// Descriptors reserved for the asynchronous I/O subsystem.
pub const EVENT_DESCRIPTORS: usize = 5;

/// Where the supervisor stands.
#[derive(Clone, Copy, Debug, PartialEq, Eq, Structural)]
pub enum Phase {
    /// The run finished (with its failure, if any); the grace period is due.
    Grace(Option<BringUpError>),
    /// Success: suspended forever, one interval at a time.
    Parked,
    /// Failure: the worker hands it back.
    Returning(BringUpError),
}

/// What the worker does next.
#[derive(Clone, Copy, Debug, PartialEq, Eq, Structural)]
pub enum Action {
    /// Suspend for this many seconds.
    Sleep(u64),
    /// Return the failure to the hosting thread.
    Return(BringUpError),
}

/// The supervisor's transition: the grace period first, then parking on
/// success or returning on failure. Parked has no way out.
pub open spec fn spec_supervise(p: Phase) -> (Phase, Action) {
    match p {
        Phase::Grace(None) => (Phase::Parked, Action::Sleep(GRACE_PERIOD_SECS)),
        Phase::Grace(Some(e)) => (Phase::Returning(e), Action::Sleep(GRACE_PERIOD_SECS)),
        Phase::Parked => (Phase::Parked, Action::Sleep(IDLE_INTERVAL_SECS)),
        Phase::Returning(e) => (Phase::Returning(e), Action::Return(e)),
    }
}

/// The phase after `n` transitions from `p`.
pub open spec fn phase_after(p: Phase, n: nat) -> Phase
    decreases n,
{
    if n == 0 {
        p
    } else {
        phase_after(spec_supervise(p).0, (n - 1) as nat)
    }
}

/// The phase that follows a run with result `outcome`.
pub fn begin(outcome: Result<(), BringUpError>) -> (p: Phase)
    ensures
        p == Phase::Grace(
            match outcome {
                Ok(_) => None,
                Err(e) => Some(e),
            },
        ),
{
    match outcome {
        Ok(_) => Phase::Grace(None),
        Err(e) => Phase::Grace(Some(e)),
    }
}

/// One supervisor transition.
pub fn supervise(p: Phase) -> (r: (Phase, Action))
    ensures
        r == spec_supervise(p),
{
    match p {
        Phase::Grace(None) => (Phase::Parked, Action::Sleep(GRACE_PERIOD_SECS)),
        Phase::Grace(Some(e)) => (Phase::Returning(e), Action::Sleep(GRACE_PERIOD_SECS)),
        Phase::Parked => (Phase::Parked, Action::Sleep(IDLE_INTERVAL_SECS)),
        Phase::Returning(e) => (Phase::Returning(e), Action::Return(e)),
    }
}

/// Once parked, the worker never returns: after any number of transitions
/// it is still parked, and each transition suspends for at least a second.
pub proof fn parked_never_returns(n: nat)
    ensures
        phase_after(Phase::Parked, n) == Phase::Parked,
        spec_supervise(phase_after(Phase::Parked, n)).1 == Action::Sleep(IDLE_INTERVAL_SECS),
        IDLE_INTERVAL_SECS >= 1,
    decreases n,
{
    if n > 0 {
        parked_never_returns((n - 1) as nat);
    }
}

/// A failed run still waits out the grace period, then returns its failure
/// rather than parking.
pub proof fn failure_waits_then_returns(e: BringUpError)
    ensures
        spec_supervise(Phase::Grace(Some(e))) == (
            Phase::Returning(e),
            Action::Sleep(GRACE_PERIOD_SECS),
        ),
        spec_supervise(phase_after(Phase::Grace(Some(e)), 1)).1 == Action::Return(e),
{
    assert(phase_after(Phase::Grace(Some(e)), 1) == phase_after(Phase::Returning(e), 0));
}

/// A successful run waits out the grace period, then parks.
pub proof fn success_waits_then_parks()
    ensures
        spec_supervise(Phase::Grace(None)) == (Phase::Parked, Action::Sleep(GRACE_PERIOD_SECS)),
{
}

/// Why the process must stop.
#[derive(Clone, Copy, Debug, PartialEq, Eq, Structural)]
pub enum HostError {
    /// The worker could not be started.
    ThreadSpawn,
    /// The worker ended abnormally.
    ThreadJoin,
    /// The worker returned the failure of its run.
    Worker(BringUpError),
}

impl HostError {
    /// Thread-level failures abort at once, with no grace period.
    pub fn bypasses_grace(&self) -> (b: bool)
        ensures
            b <==> !(*self is Worker),
    {
        match self {
            HostError::Worker(_) => false,
            _ => true,
        }
    }
}

/// What the hosting thread concludes from whether the worker started, whether it
/// ended normally, and what it returned.
pub fn host_outcome(spawned: bool, joined: bool, worker: Result<(), BringUpError>) -> (r: Result<
    (),
    HostError,
>)
    ensures
        !spawned ==> r == Err::<(), HostError>(HostError::ThreadSpawn),
        spawned && !joined ==> r == Err::<(), HostError>(HostError::ThreadJoin),
        spawned && joined ==> r == match worker {
            Ok(_) => Ok::<(), HostError>(()),
            Err(e) => Err(HostError::Worker(e)),
        },
{
    if !spawned {
        Err(HostError::ThreadSpawn)
    } else if !joined {
        Err(HostError::ThreadJoin)
    } else {
        match worker {
            Ok(_) => Ok(()),
            Err(e) => Err(HostError::Worker(e)),
        }
    }
}

} // verus!
