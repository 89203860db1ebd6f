//! The liveness filter's verdicts: whether a recorded identity still denotes
//! a running instance.

use crate::identity::Identity;
use vstd::prelude::*;

verus! {

/// What a zero-effect liveness probe sent to a PID reported.
#[derive(Clone, Copy, Debug, PartialEq, Eq)]
pub enum ProbeOutcome {
    /// The probe was delivered: a process with that PID exists.
    Running,
    /// The operating system knows no process with that PID.
    NoSuchProcess,
    /// The probe failed for another reason, such as a lack of permission.
    Failed,
}

/// The verdict on a bare PID: dead only where the probe found no such
/// process. Any other failure of the probe counts as alive, so that a switch
/// that is still held is never released too early.
pub open spec fn outcome_alive(outcome: ProbeOutcome) -> bool {
    !(outcome is NoSuchProcess)
}

/// The verdict on an identity. A probe that found no process means dead; a
/// probe that failed otherwise means alive. Where the probe reached a
/// process, and both the recorded start time and the current start time of
/// that PID are known, the two must agree: if they differ, the PID has been
/// handed to another process and the recorded identity is stale.
pub open spec fn identity_alive(
    recorded: Identity,
    outcome: ProbeOutcome,
    current_start: Option<u64>,
) -> bool {
    match outcome {
        ProbeOutcome::NoSuchProcess => false,
        ProbeOutcome::Failed => true,
        ProbeOutcome::Running => match (recorded.start_time, current_start) {
            (Some(then), Some(now)) => then == now,
            _ => true,
        },
    }
}

/// Decides whether a probed PID counts as alive.
pub fn outcome_is_alive(outcome: ProbeOutcome) -> (alive: bool)
    ensures
        alive == outcome_alive(outcome),
{
    match outcome {
        ProbeOutcome::NoSuchProcess => false,
        _ => true,
    }
}

/// Decides whether a recorded identity counts as alive, given what the probe
/// of its PID reported and the start time that the operating system now
/// gives for that PID, if it gives one.
pub fn identity_is_alive(
    recorded: Identity,
    outcome: ProbeOutcome,
    current_start: Option<u64>,
) -> (alive: bool)
    ensures
        alive == identity_alive(recorded, outcome, current_start),
        recorded.start_time is None || current_start is None ==> alive == outcome_alive(outcome),
{
    match outcome {
        ProbeOutcome::NoSuchProcess => false,
        ProbeOutcome::Failed => true,
        ProbeOutcome::Running => match (recorded.start_time, current_start) {
            (Some(then), Some(now)) => then == now,
            _ => true,
        },
    }
}

/// Sends signal 0 to `pid` with `nix::sys::signal::kill`, which checks for
/// the process without signalling it, and reports the result: `Running` for
/// success, `NoSuchProcess` for the error `ESRCH`, `Failed` for any other.
/// Nothing is claimed of which of the three comes back: that depends on the
/// processes running at the moment of the call.
#[verifier::external_body]
fn signal_probe(pid: i32) -> ProbeOutcome {
    match nix::sys::signal::kill(nix::unistd::Pid::from_raw(pid), None) {
        Ok(()) => ProbeOutcome::Running,
        Err(nix::errno::Errno::ESRCH) => ProbeOutcome::NoSuchProcess,
        Err(_) => ProbeOutcome::Failed,
    }
}

/// Probes the process `pid` and says whether it counts as alive.
///
/// `verbose` is accepted for the callers that pass it on to every probe; the
/// verdict does not depend on it.
pub fn check_alive(pid: i32, verbose: bool) -> bool {
    outcome_is_alive(signal_probe(pid))
}

/// Probes the process that `recorded` names and says whether the identity
/// counts as alive. `current_start` is the start time that the operating
/// system now gives for that PID, where the caller could find it out.
pub fn check_identity_alive(recorded: Identity, verbose: bool, current_start: Option<u64>) -> bool {
    identity_is_alive(recorded, signal_probe(recorded.pid), current_start)
}

/// Probes the PID of `recorded` and says whether it counts as alive, without
/// regard to start times.
pub fn check_pid_alive(recorded: Identity, verbose: bool) -> bool {
    check_alive(recorded.pid, verbose)
}

} // verus!
