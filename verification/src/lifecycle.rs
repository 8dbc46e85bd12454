//! The serve lifecycle as an explicit state machine.
//!
//! Phases run `Unstarted -> Bound -> Serving -> Draining -> Stopped`. The
//! decisions of the lifecycle manager — what each bind or serve outcome and
//! each cancellation signal means in each phase — are the transition
//! function here; the surrounding loop that binds the socket, awaits the
//! serve operation and performs the returned actions is I/O and lives
//! outside the verified library.
//!
//! Cancellation is hierarchical with two distinct signal directions: a
//! voluntary shutdown flows from the caller's parent scope into this
//! component (observed as [`LifecycleEvent::CancelObserved`]), while a fatal
//! internal failure flows back up to the parent scope (the returned action
//! [`LifecycleAction::FireParent`]).

use vstd::prelude::*;

verus! {

/// Phase of the serve lifecycle.
#[derive(Clone, Copy, PartialEq, Eq, Structural, Debug)]
pub enum LifecyclePhase {
    /// No socket bound yet.
    Unstarted,
    /// The listening socket is bound; accepting has not begun.
    Bound,
    /// Connections are accepted and dispatched.
    Serving,
    /// No new connections are accepted; in-flight requests finish naturally.
    Draining,
    /// The serve operation has returned; the phase is final.
    Stopped,
}

/// Outcome or signal the lifecycle manager observes.
#[derive(Clone, Copy, PartialEq, Eq, Structural, Debug)]
pub enum LifecycleEvent {
    /// The listening socket was bound at the configured address.
    BindSucceeded,
    /// The listening socket could not be bound; fatal for this instance.
    BindFailed,
    /// The accept loop began running.
    AcceptLoopStarted,
    /// The caller-supplied cancellation scope fired: drain gracefully.
    CancelObserved,
    /// The serve operation returned normally after draining.
    ServeCompleted,
    /// The serve operation terminated with an internal error.
    ServeFailed,
}

/// Action the surrounding loop must perform after a transition.
#[derive(Clone, Copy, PartialEq, Eq, Structural, Debug)]
pub enum LifecycleAction {
    /// Begin accepting connections on the bound socket.
    BeginAccepting,
    /// Surface the bind failure to the caller as a fatal error result.
    ReportBindFailure,
    /// Stop accepting new connections; let in-flight requests finish.
    StopAccepting,
    /// Fire the caller's parent cancellation scope: a local fault becomes a
    /// coordinated, fleet-wide shutdown signal.
    FireParent,
    /// The service stopped cleanly; the blocking run may return.
    Finish,
    /// Nothing to perform; events that cannot occur in a phase are ignored.
    NoAction,
}

/// The transition function of the lifecycle manager: next phase and the
/// action the surrounding loop must perform. Total: an event that cannot
/// occur in a phase leaves the phase unchanged and asks for nothing.
pub open spec fn spec_step(phase: LifecyclePhase, event: LifecycleEvent) -> (
    LifecyclePhase,
    LifecycleAction,
) {
    match (phase, event) {
        (LifecyclePhase::Unstarted, LifecycleEvent::BindSucceeded) => (
            LifecyclePhase::Bound,
            LifecycleAction::BeginAccepting,
        ),
        (LifecyclePhase::Unstarted, LifecycleEvent::BindFailed) => (
            LifecyclePhase::Stopped,
            LifecycleAction::ReportBindFailure,
        ),
        (LifecyclePhase::Bound, LifecycleEvent::AcceptLoopStarted) => (
            LifecyclePhase::Serving,
            LifecycleAction::NoAction,
        ),
        (LifecyclePhase::Serving, LifecycleEvent::CancelObserved) => (
            LifecyclePhase::Draining,
            LifecycleAction::StopAccepting,
        ),
        (LifecyclePhase::Serving, LifecycleEvent::ServeFailed) => (
            LifecyclePhase::Stopped,
            LifecycleAction::FireParent,
        ),
        (LifecyclePhase::Draining, LifecycleEvent::ServeCompleted) => (
            LifecyclePhase::Stopped,
            LifecycleAction::Finish,
        ),
        (LifecyclePhase::Draining, LifecycleEvent::ServeFailed) => (
            LifecyclePhase::Stopped,
            LifecycleAction::FireParent,
        ),
        _ => (phase, LifecycleAction::NoAction),
    }
}

/// Performs one lifecycle transition.
pub fn lifecycle_step(phase: LifecyclePhase, event: LifecycleEvent) -> (r: (
    LifecyclePhase,
    LifecycleAction,
))
    ensures
        r == spec_step(phase, event),
{
    match (phase, event) {
        (LifecyclePhase::Unstarted, LifecycleEvent::BindSucceeded) => (
            LifecyclePhase::Bound,
            LifecycleAction::BeginAccepting,
        ),
        (LifecyclePhase::Unstarted, LifecycleEvent::BindFailed) => (
            LifecyclePhase::Stopped,
            LifecycleAction::ReportBindFailure,
        ),
        (LifecyclePhase::Bound, LifecycleEvent::AcceptLoopStarted) => (
            LifecyclePhase::Serving,
            LifecycleAction::NoAction,
        ),
        (LifecyclePhase::Serving, LifecycleEvent::CancelObserved) => (
            LifecyclePhase::Draining,
            LifecycleAction::StopAccepting,
        ),
        (LifecyclePhase::Serving, LifecycleEvent::ServeFailed) => (
            LifecyclePhase::Stopped,
            LifecycleAction::FireParent,
        ),
        (LifecyclePhase::Draining, LifecycleEvent::ServeCompleted) => (
            LifecyclePhase::Stopped,
            LifecycleAction::Finish,
        ),
        (LifecyclePhase::Draining, LifecycleEvent::ServeFailed) => (
            LifecyclePhase::Stopped,
            LifecycleAction::FireParent,
        ),
        (_, _) => (phase, LifecycleAction::NoAction),
    }
}

/// The phase after a sequence of events, starting unstarted.
pub open spec fn phase_after(events: Seq<LifecycleEvent>) -> LifecyclePhase
    decreases events.len(),
{
    if events.len() == 0 {
        LifecyclePhase::Unstarted
    } else {
        spec_step(phase_after(events.drop_last()), events.last()).0
    }
}

/// `Stopped` is final: no further event changes the phase or asks for an
/// action.
pub proof fn lemma_stopped_is_final(event: LifecycleEvent)
    ensures
        spec_step(LifecyclePhase::Stopped, event) == (
            LifecyclePhase::Stopped,
            LifecycleAction::NoAction,
        ),
{
}

/// A serve failure fires the parent cancellation scope exactly when the
/// service was serving or draining — fail fast, in every such state, and
/// never from a phase in which no serve loop ran.
pub proof fn lemma_serve_failure_fires_parent(phase: LifecyclePhase)
    ensures
        spec_step(phase, LifecycleEvent::ServeFailed).1 is FireParent <==> (phase
            is Serving || phase is Draining),
{
}

/// Draining is entered only by observing the cancellation signal: if any
/// event trace from the start leaves the machine draining, the trace holds
/// a `CancelObserved`.
pub proof fn lemma_draining_requires_cancellation(events: Seq<LifecycleEvent>)
    requires
        phase_after(events) is Draining,
    ensures
        exists|i: int| 0 <= i < events.len() && events[i] is CancelObserved,
    decreases events.len(),
{
    let n = events.len() as int;
    let prev = phase_after(events.drop_last());
    if prev is Draining {
        lemma_draining_requires_cancellation(events.drop_last());
        let i = choose|i: int|
            0 <= i < events.drop_last().len() && events.drop_last()[i] is CancelObserved;
        assert(events[i] is CancelObserved);
    } else {
        assert(events[n - 1] is CancelObserved);
    }
}

/// The clean finish comes only after cancellation: if the next transition
/// returns the `Finish` action, the trace so far holds a `CancelObserved`.
/// The blocking run form therefore returns cleanly only after the
/// cancellation handle has fired and the serve operation has drained and
/// returned.
pub proof fn lemma_finish_requires_cancellation(events: Seq<LifecycleEvent>, event: LifecycleEvent)
    requires
        spec_step(phase_after(events), event).1 is Finish,
    ensures
        exists|i: int| 0 <= i < events.len() && events[i] is CancelObserved,
{
    assert(phase_after(events) is Draining);
    lemma_draining_requires_cancellation(events);
}

/// Cancelling while serving stops the service with the very next serve
/// return: one transition to draining, and the serve operation's own
/// return then finishes the machine.
pub proof fn lemma_prompt_stop_after_cancellation()
    ensures
        spec_step(LifecyclePhase::Serving, LifecycleEvent::CancelObserved) == (
            LifecyclePhase::Draining,
            LifecycleAction::StopAccepting,
        ),
        spec_step(
            spec_step(LifecyclePhase::Serving, LifecycleEvent::CancelObserved).0,
            LifecycleEvent::ServeCompleted,
        ) == (LifecyclePhase::Stopped, LifecycleAction::Finish),
{
}

} // verus!
