use http_frontend::lifecycle::{
    lifecycle_step, LifecycleAction, LifecycleEvent, LifecyclePhase,
};

#[test]
fn clean_run_passes_through_every_phase() {
    let (phase, action) =
        lifecycle_step(LifecyclePhase::Unstarted, LifecycleEvent::BindSucceeded);
    assert_eq!(phase, LifecyclePhase::Bound);
    assert_eq!(action, LifecycleAction::BeginAccepting);

    let (phase, action) = lifecycle_step(phase, LifecycleEvent::AcceptLoopStarted);
    assert_eq!(phase, LifecyclePhase::Serving);
    assert_eq!(action, LifecycleAction::NoAction);

    let (phase, action) = lifecycle_step(phase, LifecycleEvent::CancelObserved);
    assert_eq!(phase, LifecyclePhase::Draining);
    assert_eq!(action, LifecycleAction::StopAccepting);

    let (phase, action) = lifecycle_step(phase, LifecycleEvent::ServeCompleted);
    assert_eq!(phase, LifecyclePhase::Stopped);
    assert_eq!(action, LifecycleAction::Finish);
}

#[test]
fn bind_failure_is_fatal_and_reported() {
    let (phase, action) = lifecycle_step(LifecyclePhase::Unstarted, LifecycleEvent::BindFailed);
    assert_eq!(phase, LifecyclePhase::Stopped);
    assert_eq!(action, LifecycleAction::ReportBindFailure);
}

#[test]
fn serve_failure_fires_the_parent_scope() {
    // A transport fault while serving propagates bottom-up.
    let (phase, action) = lifecycle_step(LifecyclePhase::Serving, LifecycleEvent::ServeFailed);
    assert_eq!(phase, LifecyclePhase::Stopped);
    assert_eq!(action, LifecycleAction::FireParent);

    // A fault during the drain does too.
    let (phase, action) = lifecycle_step(LifecyclePhase::Draining, LifecycleEvent::ServeFailed);
    assert_eq!(phase, LifecyclePhase::Stopped);
    assert_eq!(action, LifecycleAction::FireParent);

    // Before any serve loop ran, the same outcome cannot arise and asks
    // for nothing.
    let (phase, action) = lifecycle_step(LifecyclePhase::Unstarted, LifecycleEvent::ServeFailed);
    assert_eq!(phase, LifecyclePhase::Unstarted);
    assert_eq!(action, LifecycleAction::NoAction);
}

#[test]
fn cancellation_with_nothing_in_flight_stops_promptly() {
    // Cancel observed while serving: stop accepting at once; the serve
    // operation's very next return finishes the machine.
    let (phase, action) = lifecycle_step(LifecyclePhase::Serving, LifecycleEvent::CancelObserved);
    assert_eq!(phase, LifecyclePhase::Draining);
    assert_eq!(action, LifecycleAction::StopAccepting);
    let (phase, action) = lifecycle_step(phase, LifecycleEvent::ServeCompleted);
    assert_eq!(phase, LifecyclePhase::Stopped);
    assert_eq!(action, LifecycleAction::Finish);
}

#[test]
fn stopped_is_final() {
    for event in [
        LifecycleEvent::BindSucceeded,
        LifecycleEvent::BindFailed,
        LifecycleEvent::AcceptLoopStarted,
        LifecycleEvent::CancelObserved,
        LifecycleEvent::ServeCompleted,
        LifecycleEvent::ServeFailed,
    ] {
        let (phase, action) = lifecycle_step(LifecyclePhase::Stopped, event);
        assert_eq!(phase, LifecyclePhase::Stopped);
        assert_eq!(action, LifecycleAction::NoAction);
    }
}

#[test]
fn serve_cannot_finish_before_cancellation() {
    // The serve operation returning while still serving is not a clean
    // finish: without an observed cancellation nothing may report Finish.
    let (phase, action) =
        lifecycle_step(LifecyclePhase::Serving, LifecycleEvent::ServeCompleted);
    assert_eq!(phase, LifecyclePhase::Serving);
    assert_eq!(action, LifecycleAction::NoAction);
}
