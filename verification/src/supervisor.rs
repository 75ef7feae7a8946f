//! Broker-connection supervisor: the retry state machine that keeps exactly
//! one event-loop driver alive for the shared connection handle for the
//! lifetime of the process. Each delivered event is drained and the loop
//! polls again at once; each transport error puts the machine into backoff
//! for a fixed delay before the next poll. There is no terminal state: the
//! fixed-interval retry (not exponential backoff) is the accepted policy.
//!
//! The surrounding process owns the connection and the clock: it polls the
//! event stream, hands each outcome to [`step`], and performs the action the
//! machine returns.

use vstd::prelude::*;

verus! {

/// How long the supervisor waits after a transport error before polling
/// again, in milliseconds.
pub const RETRY_DELAY_MS: u64 = 2000;

/// The phase the supervised connection is in.
#[derive(Clone, Copy, Debug, PartialEq, Eq, Structural)]
pub enum SupervisorPhase {
    /// The event stream is being drained; the last poll delivered an event.
    Connected,
    /// The last poll failed; the machine is waiting out the retry delay.
    Backoff,
}

/// What one poll of the connection's event stream came back with. The event
/// itself is discarded: the supervisor acts only on success or failure.
#[derive(Clone, Copy, Debug, PartialEq, Eq, Structural)]
pub enum PollOutcome {
    /// The poll delivered an event.
    Delivered,
    /// The poll reported a transport error.
    Failed,
}

/// What the driver of the event loop does next. Every variant ends in
/// another poll: the machine never instructs the driver to stop.
#[derive(Clone, Copy, Debug, PartialEq, Eq, Structural)]
pub enum SupervisorAction {
    /// Poll the event stream again at once.
    PollNext,
    /// Wait the given number of milliseconds, then poll again.
    WaitMsThenPoll(u64),
}

/// One step of the retry machine: a delivered event keeps the connection in
/// the connected phase and polls again at once; a failure moves it into
/// backoff and waits the fixed retry delay before the next poll. The next
/// phase depends on the outcome alone.
pub open spec fn spec_step(phase: SupervisorPhase, outcome: PollOutcome) -> (
    SupervisorPhase,
    SupervisorAction,
) {
    match outcome {
        PollOutcome::Delivered => (SupervisorPhase::Connected, SupervisorAction::PollNext),
        PollOutcome::Failed => (
            SupervisorPhase::Backoff,
            SupervisorAction::WaitMsThenPoll(RETRY_DELAY_MS),
        ),
    }
}

/// Advances the retry machine by one poll outcome.
pub fn step(phase: SupervisorPhase, outcome: PollOutcome) -> (r: (
    SupervisorPhase,
    SupervisorAction,
))
    ensures
        r == spec_step(phase, outcome),
{
    match outcome {
        PollOutcome::Delivered => (SupervisorPhase::Connected, SupervisorAction::PollNext),
        PollOutcome::Failed => (
            SupervisorPhase::Backoff,
            SupervisorAction::WaitMsThenPoll(RETRY_DELAY_MS),
        ),
    }
}

/// The supervisor never exits: whatever phase the machine is in and whatever
/// a poll came back with — a transport failure included — the action of the
/// next step schedules another poll, so the driver keeps attempting
/// reconnection.
pub proof fn lemma_supervisor_never_stops(phase: SupervisorPhase, outcome: PollOutcome)
    ensures
        spec_step(phase, outcome).1 == SupervisorAction::PollNext || spec_step(phase, outcome).1
            == SupervisorAction::WaitMsThenPoll(RETRY_DELAY_MS),
{
}

} // verus!
