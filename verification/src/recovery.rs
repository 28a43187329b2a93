//! Reaching the workers: the loop that connects to one of them, and the
//! procedure that brings them back when a block is overdue.

use crate::limits::{CLIENT_RETRY_INTERVAL_SECONDS, DOCKER_RETRY_WAIT_SECONDS};
use vstd::prelude::*;

verus! {

/// The command that restarts the workers, unless another is configured.
pub const RESTART_COMMAND: &'static str = "./scripts/docker-multi-control.sh";

/// The argument handed to the restart command.
pub const RESTART_ARGUMENT: &'static str = "retry";

/// What happened in the loop that connects to a worker.
#[derive(Clone, Copy, Debug, PartialEq, Eq, Structural)]
pub enum ConnectEvent {
    /// The loop begins, or the pause after a failed attempt is over.
    Ready,
    /// An attempt succeeded.
    Connected,
    /// An attempt failed.
    Failed,
}

/// What the loop that connects to a worker does next.
#[derive(Clone, Copy, Debug, PartialEq, Eq, Structural)]
pub enum ConnectAction {
    /// Try to connect.
    Attempt,
    /// Pause for this many seconds, or until shutdown is asked for, then
    /// come back with `Ready`.
    Pause { seconds: u64 },
    /// The worker is connected: the loop is over.
    Done,
    /// Shutdown was asked for: give the connection up.
    Abandon,
}

/// The next move of the connect loop. Shutdown, once asked for, ends the
/// loop before anything else is tried; a failed attempt is followed by a
/// pause and another attempt, without limit.
pub open spec fn connect_action_of(event: ConnectEvent, shutdown: bool) -> ConnectAction {
    if shutdown {
        ConnectAction::Abandon
    } else {
        match event {
            ConnectEvent::Ready => ConnectAction::Attempt,
            ConnectEvent::Connected => ConnectAction::Done,
            ConnectEvent::Failed => ConnectAction::Pause { seconds: CLIENT_RETRY_INTERVAL_SECONDS },
        }
    }
}

/// Decides the next move of the connect loop; `shutdown` tells whether
/// shutdown was asked for.
pub fn connect_step(event: ConnectEvent, shutdown: bool) -> (action: ConnectAction)
    ensures
        action == connect_action_of(event, shutdown),
{
    if shutdown {
        ConnectAction::Abandon
    } else {
        match event {
            ConnectEvent::Ready => ConnectAction::Attempt,
            ConnectEvent::Connected => ConnectAction::Done,
            ConnectEvent::Failed => ConnectAction::Pause { seconds: CLIENT_RETRY_INTERVAL_SECONDS },
        }
    }
}

/// How running the restart command ended.
#[derive(Clone, Copy, Debug, PartialEq, Eq, Structural)]
pub enum RestartOutcome {
    /// The command ran and reported success.
    Succeeded,
    /// The command ran and reported failure, with this exit code if it had
    /// one.
    Failed { code: Option<i32> },
    /// The command could not be run.
    NotRun,
}

/// The steps that bring the workers back, in their order.
#[derive(Clone, Copy, Debug, PartialEq, Eq, Structural)]
pub enum RecoveryStep {
    /// Run the restart command.
    Restart,
    /// Let the workers start: wait this many seconds.
    Wait { seconds: u64 },
    /// Connect to the aggregator and to every subblock worker anew.
    Reconnect,
    /// Send the inputs of the block in flight again.
    Redispatch,
    /// Go back to waiting for the block's result.
    Resume,
    /// The workers cannot be brought back: give up for good.
    Abort,
}

/// The step that follows `step`; `restart` tells how the restart ended and
/// matters after that step alone.
pub open spec fn next_recovery_step_of(step: RecoveryStep, restart: RestartOutcome) -> RecoveryStep {
    match step {
        RecoveryStep::Restart => match restart {
            RestartOutcome::Succeeded => RecoveryStep::Wait { seconds: DOCKER_RETRY_WAIT_SECONDS },
            _ => RecoveryStep::Abort,
        },
        RecoveryStep::Wait { .. } => RecoveryStep::Reconnect,
        RecoveryStep::Reconnect => RecoveryStep::Redispatch,
        RecoveryStep::Redispatch => RecoveryStep::Resume,
        RecoveryStep::Resume => RecoveryStep::Resume,
        RecoveryStep::Abort => RecoveryStep::Abort,
    }
}

/// The first step of a recovery.
pub fn first_recovery_step() -> (step: RecoveryStep)
    ensures
        step == RecoveryStep::Restart,
{
    RecoveryStep::Restart
}

/// Finds the step that follows `step`.
pub fn next_recovery_step(step: RecoveryStep, restart: RestartOutcome) -> (next: RecoveryStep)
    ensures
        next == next_recovery_step_of(step, restart),
{
    match step {
        RecoveryStep::Restart => match restart {
            RestartOutcome::Succeeded => RecoveryStep::Wait { seconds: DOCKER_RETRY_WAIT_SECONDS },
            _ => RecoveryStep::Abort,
        },
        RecoveryStep::Wait { .. } => RecoveryStep::Reconnect,
        RecoveryStep::Reconnect => RecoveryStep::Redispatch,
        RecoveryStep::Redispatch => RecoveryStep::Resume,
        RecoveryStep::Resume => RecoveryStep::Resume,
        RecoveryStep::Abort => RecoveryStep::Abort,
    }
}

} // verus!
