//! The course of the process around the prover: from start through running
//! to a requested, graceful end.

use vstd::prelude::*;

verus! {

/// Seconds granted to the proving loops, after `exit`, to see the flag
/// before the process ends.
pub const GRACE_PERIOD_SECS: u64 = 1;

/// Where the process stands.
#[derive(Clone, Copy, Debug, PartialEq, Eq, Structural)]
pub enum Phase {
    /// Nothing has been started.
    Uninitialized,
    /// The pools are being built.
    Initializing,
    /// The loops prove and the reporter ticks.
    Running,
    /// `exit` was called; the grace period runs.
    Terminating,
    /// The process ends.
    Terminated,
}

/// What happened.
#[derive(Clone, Copy, Debug, PartialEq, Eq, Structural)]
pub enum Event {
    /// The process was started with its parameters.
    Start,
    /// The prover was initialised.
    Initialized,
    /// A pool could not be built.
    InitFailed,
    /// The interrupt signal arrived.
    Interrupt,
    /// The interrupt signal could not be listened for.
    SignalFailed,
    /// The grace period is over.
    GraceElapsed,
}

/// What the process does next.
#[derive(Clone, Copy, Debug, PartialEq, Eq, Structural)]
pub enum Action {
    /// Nothing.
    Nothing,
    /// Initialise the prover.
    Initialize,
    /// Start the dispatcher and the reporter, and listen for the signal.
    Launch,
    /// Say that the signal cannot be listened for, and go on.
    ReportSignalFailure,
    /// Call `exit` and wait for the grace period.
    RequestExit,
    /// End the process with success.
    LeaveGracefully,
    /// Say why the prover could not start and end the process with failure.
    LeaveFailed,
}

/// The phase and the action that follow `event` in `phase`. An event that
/// has no place in a phase changes nothing.
pub open spec fn next(phase: Phase, event: Event) -> (Phase, Action) {
    match (phase, event) {
        (Phase::Uninitialized, Event::Start) => (Phase::Initializing, Action::Initialize),
        (Phase::Initializing, Event::Initialized) => (Phase::Running, Action::Launch),
        (Phase::Initializing, Event::InitFailed) => (Phase::Terminated, Action::LeaveFailed),
        (Phase::Running, Event::SignalFailed) => (Phase::Running, Action::ReportSignalFailure),
        (Phase::Running, Event::Interrupt) => (Phase::Terminating, Action::RequestExit),
        (Phase::Terminating, Event::GraceElapsed) => (Phase::Terminated, Action::LeaveGracefully),
        _ => (phase, Action::Nothing),
    }
}

/// Decides what follows `event` in `phase`.
pub fn advance(phase: Phase, event: Event) -> (step: (Phase, Action))
    ensures
        step == next(phase, event),
{
    match (phase, event) {
        (Phase::Uninitialized, Event::Start) => (Phase::Initializing, Action::Initialize),
        (Phase::Initializing, Event::Initialized) => (Phase::Running, Action::Launch),
        (Phase::Initializing, Event::InitFailed) => (Phase::Terminated, Action::LeaveFailed),
        (Phase::Running, Event::SignalFailed) => (Phase::Running, Action::ReportSignalFailure),
        (Phase::Running, Event::Interrupt) => (Phase::Terminating, Action::RequestExit),
        (Phase::Terminating, Event::GraceElapsed) => (Phase::Terminated, Action::LeaveGracefully),
        _ => (phase, Action::Nothing),
    }
}

/// The phase reached from `phase` by `events`, one after the other.
pub open spec fn phase_after(phase: Phase, events: Seq<Event>) -> Phase
    decreases events.len(),
{
    if events.len() == 0 {
        phase
    } else {
        next(phase_after(phase, events.drop_last()), events.last()).0
    }
}

/// How far a phase is on the way from start to end.
pub open spec fn rank(phase: Phase) -> nat {
    match phase {
        Phase::Uninitialized => 0,
        Phase::Initializing => 1,
        Phase::Running => 2,
        Phase::Terminating => 3,
        Phase::Terminated => 4,
    }
}

/// Asking twice for the end is asking once: a second interrupt changes
/// neither the phase nor anything else.
pub proof fn lemma_exit_is_idempotent(phase: Phase)
    ensures
        next(next(phase, Event::Interrupt).0, Event::Interrupt) == (
            next(phase, Event::Interrupt).0,
            Action::Nothing,
        ),
{
}

/// The process never goes back: whatever happens, the phase stays or moves
/// on towards the end, and the end is final.
pub proof fn lemma_phase_never_goes_back(phase: Phase, events: Seq<Event>)
    ensures
        rank(phase) <= rank(phase_after(phase, events)),
        phase == Phase::Terminated ==> phase_after(phase, events) == Phase::Terminated,
    decreases events.len(),
{
    if events.len() > 0 {
        lemma_phase_never_goes_back(phase, events.drop_last());
    }
}

/// Once the end has been asked for the process ends after the grace
/// period, whatever else arrives in between, and only `exit` is asked of
/// the prover on the way: no event after the interrupt starts anything.
pub proof fn lemma_interrupt_leads_to_the_end(events: Seq<Event>)
    ensures
        phase_after(Phase::Terminating, events) == Phase::Terminating || phase_after(
            Phase::Terminating,
            events,
        ) == Phase::Terminated,
        events.contains(Event::GraceElapsed) ==> phase_after(Phase::Terminating, events)
            == Phase::Terminated,
    decreases events.len(),
{
    if events.len() > 0 {
        let earlier = events.drop_last();
        lemma_interrupt_leads_to_the_end(earlier);
        if events.contains(Event::GraceElapsed) && events.last() != Event::GraceElapsed {
            let i = choose|i: int| 0 <= i < events.len() && events[i] == Event::GraceElapsed;
            assert(earlier[i] == Event::GraceElapsed);
            assert(earlier.contains(Event::GraceElapsed));
        }
    }
}

} // verus!
