//! Decisions of the background streaming driver.
//!
//! The driver runs on its own thread. Before each round it checks that the
//! shared scene manager is still valid and that termination has not been
//! signalled; then it runs one processing step, and when that step found no
//! work it sleeps a fixed interval before the next check.
use vstd::prelude::*;

verus! {

/// Pause after a processing step that found no work, in milliseconds.
pub const IDLE_SLEEP_MS: u64 = 1000;

/// What the driver does next.
#[derive(Clone, Copy, Debug, PartialEq, Eq, Structural)]
pub enum DriverAction {
    /// Run one processing step.
    Process,
    /// Sleep this many milliseconds, then check again.
    Sleep(u64),
    /// Check again at once.
    Recheck,
    /// Leave the loop.
    Exit,
}

pub open spec fn check_spec(resource_valid: bool, terminated: bool) -> DriverAction {
    if resource_valid && !terminated {
        DriverAction::Process
    } else {
        DriverAction::Exit
    }
}

pub open spec fn after_step_spec(did_work: bool) -> DriverAction {
    if did_work {
        DriverAction::Recheck
    } else {
        DriverAction::Sleep(IDLE_SLEEP_MS)
    }
}

/// The check at the top of each round: process while the scene manager is
/// valid and termination has not been signalled, otherwise exit.
pub fn check(resource_valid: bool, terminated: bool) -> (r: DriverAction)
    ensures
        r == check_spec(resource_valid, terminated),
{
    if resource_valid && !terminated {
        DriverAction::Process
    } else {
        DriverAction::Exit
    }
}

/// What follows a processing step: an idle step is followed by a sleep of
/// `IDLE_SLEEP_MS`, a busy one by an immediate new check.
pub fn after_step(did_work: bool) -> (r: DriverAction)
    ensures
        r == after_step_spec(did_work),
{
    if did_work {
        DriverAction::Recheck
    } else {
        DriverAction::Sleep(IDLE_SLEEP_MS)
    }
}

/// The actions of one round: the check, and when it allows processing, what
/// follows the step.
pub open spec fn round_spec(resource_valid: bool, terminated: bool, did_work: bool) -> Seq<
    DriverAction,
> {
    if check_spec(resource_valid, terminated) == DriverAction::Process {
        seq![DriverAction::Process, after_step_spec(did_work)]
    } else {
        seq![DriverAction::Exit]
    }
}

/// With a processing step that never finds work, each round that processes
/// ends with exactly one sleep of `IDLE_SLEEP_MS` before the next check, and
/// the first check after termination is signalled exits without processing.
/// So the driver never spins, and it leaves within one sleep interval (plus
/// the step in progress) of the signal.
pub proof fn lemma_idle_driver(resource_valid: bool, terminated: bool)
    ensures
        !terminated && resource_valid ==> round_spec(resource_valid, terminated, false) == seq![
            DriverAction::Process,
            DriverAction::Sleep(IDLE_SLEEP_MS),
        ],
        terminated ==> round_spec(resource_valid, terminated, false) == seq![DriverAction::Exit],
{
}

} // verus!
