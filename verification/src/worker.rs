//! The forwarding worker's lifecycle state machine, and the fail-fast law
//! for startup: once the downstream connection has failed, no later event
//! reaches a state in which binding the listener is permitted.

use vstd::prelude::*;

verus! {

/// The worker's lifecycle:
/// `Uninitialized → Connecting → Ready → [Forwarding ⇄ Ready] → Failed`.
/// `Failed` is terminal and is reached only on a non-retryable error.
#[derive(Clone, Copy, Debug, PartialEq, Eq, Structural)]
pub enum WorkerState {
    Uninitialized,
    Connecting,
    Ready,
    Forwarding,
    Failed,
}

/// The events that drive the worker's lifecycle: the startup sequence, and
/// the begin and the three possible outcomes of one push.
#[derive(Clone, Copy, Debug, PartialEq, Eq, Structural)]
pub enum WorkerEvent {
    StartConnect,
    Connected,
    ConnectFailed,
    PushStarted,
    PushDelivered,
    PushFailedRetryable,
    PushFailedFatal,
}

/// The transition table of the worker's lifecycle. An event that does not
/// apply in the current state leaves the state as it is; in particular no
/// event leaves `Failed`.
pub open spec fn worker_step_spec(s: WorkerState, e: WorkerEvent) -> WorkerState {
    match (s, e) {
        (WorkerState::Uninitialized, WorkerEvent::StartConnect) => WorkerState::Connecting,
        (WorkerState::Connecting, WorkerEvent::Connected) => WorkerState::Ready,
        (WorkerState::Connecting, WorkerEvent::ConnectFailed) => WorkerState::Failed,
        (WorkerState::Ready, WorkerEvent::PushStarted) => WorkerState::Forwarding,
        (WorkerState::Forwarding, WorkerEvent::PushDelivered) => WorkerState::Ready,
        (WorkerState::Forwarding, WorkerEvent::PushFailedRetryable) => WorkerState::Forwarding,
        (WorkerState::Forwarding, WorkerEvent::PushFailedFatal) => WorkerState::Failed,
        (_, _) => s,
    }
}

/// Applies one lifecycle event.
pub fn worker_step(s: WorkerState, e: WorkerEvent) -> (r: WorkerState)
    ensures
        r == worker_step_spec(s, e),
{
    match (s, e) {
        (WorkerState::Uninitialized, WorkerEvent::StartConnect) => WorkerState::Connecting,
        (WorkerState::Connecting, WorkerEvent::Connected) => WorkerState::Ready,
        (WorkerState::Connecting, WorkerEvent::ConnectFailed) => WorkerState::Failed,
        (WorkerState::Ready, WorkerEvent::PushStarted) => WorkerState::Forwarding,
        (WorkerState::Forwarding, WorkerEvent::PushDelivered) => WorkerState::Ready,
        (WorkerState::Forwarding, WorkerEvent::PushFailedRetryable) => WorkerState::Forwarding,
        (WorkerState::Forwarding, WorkerEvent::PushFailedFatal) => WorkerState::Failed,
        (_, _) => s,
    }
}

/// A whole sequence of lifecycle events, applied in order.
pub open spec fn worker_run(s: WorkerState, events: Seq<WorkerEvent>) -> WorkerState
    decreases events.len(),
{
    if events.len() == 0 {
        s
    } else {
        worker_run(worker_step_spec(s, events[0]), events.drop_first())
    }
}

/// Whether the process may bind the listener socket: only once the worker
/// holds its downstream connection and waits on the queue.
pub open spec fn may_bind_spec(s: WorkerState) -> bool {
    s is Ready
}

/// Decides whether the listener may be bound in the given worker state.
pub fn may_bind(s: WorkerState) -> (r: bool)
    ensures
        r == may_bind_spec(s),
{
    match s {
        WorkerState::Ready => true,
        _ => false,
    }
}

/// `Failed` is terminal: no sequence of further events leaves it.
pub proof fn lemma_failed_terminal(events: Seq<WorkerEvent>)
    ensures
        worker_run(WorkerState::Failed, events) == WorkerState::Failed,
    decreases events.len(),
{
    if events.len() > 0 {
        lemma_failed_terminal(events.drop_first());
    }
}

/// Fail fast before the listener binds: if the downstream connection
/// attempt fails, the worker is terminally failed, and no sequence of
/// later events reaches a state that permits binding the listener socket —
/// so a process that binds only when `may_bind` holds never accepts
/// traffic it cannot forward.
pub proof fn lemma_fail_fast_before_bind(events: Seq<WorkerEvent>)
    ensures
        !may_bind_spec(
            worker_run(worker_step_spec(WorkerState::Connecting, WorkerEvent::ConnectFailed), events),
        ),
{
    lemma_failed_terminal(events);
}

} // verus!
