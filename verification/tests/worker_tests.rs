use feed_relay::worker::may_bind;
use feed_relay::worker::worker_step;
use feed_relay::worker::WorkerEvent;
use feed_relay::worker::WorkerState;

#[test]
fn startup_path_reaches_ready() {
    let s = worker_step(WorkerState::Uninitialized, WorkerEvent::StartConnect);
    assert_eq!(s, WorkerState::Connecting);
    let s = worker_step(s, WorkerEvent::Connected);
    assert_eq!(s, WorkerState::Ready);
}

#[test]
fn forwarding_cycles_back_to_ready() {
    let s = worker_step(WorkerState::Ready, WorkerEvent::PushStarted);
    assert_eq!(s, WorkerState::Forwarding);
    assert_eq!(worker_step(s, WorkerEvent::PushDelivered), WorkerState::Ready);
    assert_eq!(worker_step(s, WorkerEvent::PushFailedRetryable), WorkerState::Forwarding);
    assert_eq!(worker_step(s, WorkerEvent::PushFailedFatal), WorkerState::Failed);
}

#[test]
fn failed_connect_is_terminal_and_forbids_binding() {
    let mut s = worker_step(WorkerState::Connecting, WorkerEvent::ConnectFailed);
    assert_eq!(s, WorkerState::Failed);
    let every_event = [
        WorkerEvent::StartConnect,
        WorkerEvent::Connected,
        WorkerEvent::ConnectFailed,
        WorkerEvent::PushStarted,
        WorkerEvent::PushDelivered,
        WorkerEvent::PushFailedRetryable,
        WorkerEvent::PushFailedFatal,
    ];
    for e in every_event {
        s = worker_step(s, e);
        assert_eq!(s, WorkerState::Failed);
        assert!(!may_bind(s));
    }
}

#[test]
fn binding_is_allowed_only_when_ready() {
    assert!(may_bind(WorkerState::Ready));
    assert!(!may_bind(WorkerState::Uninitialized));
    assert!(!may_bind(WorkerState::Connecting));
    assert!(!may_bind(WorkerState::Forwarding));
    assert!(!may_bind(WorkerState::Failed));
}
