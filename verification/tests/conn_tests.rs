use tcp_relay::admission::AdmissionPool;
use tcp_relay::conn::{ConnEvent, ConnState, ConnTask, FailureKind};
use tcp_relay::relay::RelaySession;

#[test]
fn fresh_task_is_accepted_and_holds_nothing() {
    let task = ConnTask::new();
    assert_eq!(task.state, ConnState::Accepted);
    assert!(task.client_open);
    assert!(!task.dest_open);
    assert!(!task.holds_permit);
}

#[test]
fn normal_path_walks_all_states() {
    let mut task = ConnTask::new();
    let eff = task.step(ConnEvent::PermitGranted);
    assert_eq!(task.state, ConnState::Admitted);
    assert!(task.holds_permit);
    assert!(!eff.released_permit);
    assert_eq!(eff.diagnostic, None);

    task.step(ConnEvent::DialStarted);
    assert_eq!(task.state, ConnState::Dialing);

    task.step(ConnEvent::DialSucceeded);
    assert_eq!(task.state, ConnState::Tuned);
    assert!(task.dest_open);

    task.step(ConnEvent::RelayStarted);
    assert_eq!(task.state, ConnState::Relaying);

    let last = task.step(ConnEvent::RelayFinished);
    assert_eq!(task.state, ConnState::Closed);
    assert!(last.released_permit);
    assert_eq!(last.diagnostic, None);
    assert!(!task.holds_permit);
    assert!(!task.client_open);
    assert!(!task.dest_open);
}

#[test]
fn admission_denied_closes_without_dialing() {
    let mut task = ConnTask::new();
    let eff = task.step(ConnEvent::AdmissionDenied);
    assert_eq!(task.state, ConnState::Closed);
    assert!(!eff.released_permit);
    assert_eq!(eff.diagnostic, None);
    assert!(!task.client_open);
    assert!(!task.dest_open);
}

#[test]
fn destination_refused_closes_client_with_zero_bytes() {
    // The destination refuses the connection: the client socket is closed
    // with zero bytes transferred either way, the permit is released, and a
    // dial-failure diagnostic is produced.
    let mut pool = AdmissionPool::new(1);
    let mut task = ConnTask::new();
    assert!(pool.try_acquire());
    task.step(ConnEvent::PermitGranted);
    task.step(ConnEvent::DialStarted);
    let session = RelaySession::new();
    let eff = task.step(ConnEvent::DialFailed);
    assert_eq!(task.state, ConnState::Closed);
    assert_eq!(eff.diagnostic, Some(FailureKind::DialFailure));
    assert!(eff.released_permit);
    if eff.released_permit {
        pool.release();
    }
    assert_eq!(pool.outstanding, 0);
    assert!(!task.client_open);
    assert!(!task.dest_open);
    assert_eq!(session.byte_counts(), (0, 0));
}

#[test]
fn dial_timeout_closes_and_retains_no_destination() {
    let mut task = ConnTask::new();
    task.step(ConnEvent::PermitGranted);
    task.step(ConnEvent::DialStarted);
    let eff = task.step(ConnEvent::DialTimedOut);
    assert_eq!(task.state, ConnState::Closed);
    assert_eq!(eff.diagnostic, Some(FailureKind::DialTimeout));
    assert!(eff.released_permit);
    assert!(!task.dest_open);
    assert!(!task.client_open);
}

#[test]
fn tune_failure_is_reported_but_not_fatal() {
    let mut task = ConnTask::new();
    task.step(ConnEvent::PermitGranted);
    task.step(ConnEvent::DialStarted);
    task.step(ConnEvent::DialSucceeded);
    let eff = task.step(ConnEvent::TuneFailed);
    assert_eq!(eff.diagnostic, Some(FailureKind::TuneFailure));
    assert!(!eff.released_permit);
    assert_eq!(task.state, ConnState::Tuned);
    assert!(task.dest_open);
    let eff = task.step(ConnEvent::RelayStarted);
    assert_eq!(task.state, ConnState::Relaying);
    assert_eq!(eff.diagnostic, None);
}

#[test]
fn relay_error_closes_both_sockets_and_releases() {
    let mut task = ConnTask::new();
    task.step(ConnEvent::PermitGranted);
    task.step(ConnEvent::DialStarted);
    task.step(ConnEvent::DialSucceeded);
    task.step(ConnEvent::RelayStarted);
    let eff = task.step(ConnEvent::RelayErrored);
    assert_eq!(task.state, ConnState::Closed);
    assert_eq!(eff.diagnostic, Some(FailureKind::RelayFailure));
    assert!(eff.released_permit);
    assert!(!task.client_open);
    assert!(!task.dest_open);
}

#[test]
fn event_out_of_place_changes_nothing() {
    let mut task = ConnTask::new();
    let eff = task.step(ConnEvent::RelayFinished);
    assert_eq!(task.state, ConnState::Accepted);
    assert!(!eff.released_permit);
    assert_eq!(eff.diagnostic, None);
    assert!(task.client_open);
}

#[test]
fn closed_is_terminal() {
    let mut task = ConnTask::new();
    task.step(ConnEvent::AdmissionDenied);
    for ev in [
        ConnEvent::PermitGranted,
        ConnEvent::DialStarted,
        ConnEvent::DialSucceeded,
        ConnEvent::RelayStarted,
        ConnEvent::RelayFinished,
    ] {
        let eff = task.step(ev);
        assert_eq!(task.state, ConnState::Closed);
        assert!(!eff.released_permit);
        assert_eq!(eff.diagnostic, None);
    }
}

#[test]
fn waiting_connection_dials_only_after_a_release() {
    // Backpressure end to end: with capacity 1, a second accepted
    // connection is not admitted — and so never begins dialing — until the
    // first one finishes and releases its permit.
    let mut pool = AdmissionPool::new(1);
    let mut first = ConnTask::new();
    let mut second = ConnTask::new();

    assert!(pool.try_acquire());
    first.step(ConnEvent::PermitGranted);

    assert!(!pool.try_acquire());
    assert_eq!(second.state, ConnState::Accepted);

    first.step(ConnEvent::DialStarted);
    first.step(ConnEvent::DialSucceeded);
    first.step(ConnEvent::RelayStarted);
    let eff = first.step(ConnEvent::RelayFinished);
    assert!(eff.released_permit);
    pool.release();

    assert!(pool.try_acquire());
    second.step(ConnEvent::PermitGranted);
    second.step(ConnEvent::DialStarted);
    assert_eq!(second.state, ConnState::Dialing);
}

#[test]
fn dial_timeout_constant_is_five_seconds() {
    assert_eq!(tcp_relay::DIAL_TIMEOUT_SECS, 5);
}
