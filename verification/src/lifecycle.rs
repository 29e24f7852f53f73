//! The application's one-shot lifecycle: which supervisor operation each
//! event of the hosting framework calls for.
//!
//! ```text
//! NotStarted --Setup--> Running --CloseRequested | Exit--> ShuttingDown
//! ShuttingDown --ShutdownFinished--> Stopped
//! ```
//!
//! The embedding application keeps the phase, feeds every event to [`step`],
//! performs the action that it answers with, and reports
//! [`LifecycleEvent::ShutdownFinished`] when a shutdown has returned.

use vstd::prelude::*;

verus! {

/// Where the application is in its run.
#[derive(Debug, Clone, Copy, PartialEq, Eq, Structural)]
pub enum Phase {
    /// Setup has not run yet.
    NotStarted,
    /// Setup has run; the server was started or found live.
    Running,
    /// A shutdown was called for and has not returned yet.
    ShuttingDown,
    /// A shutdown has returned. Terminal.
    Stopped,
}

/// What the hosting framework, or the application itself, reports.
#[derive(Debug, Clone, Copy, PartialEq, Eq, Structural)]
pub enum LifecycleEvent {
    /// The application is being set up.
    Setup,
    /// The main window was asked to close.
    CloseRequested,
    /// The process is about to exit.
    Exit,
    /// A shutdown of the supervisor has returned.
    ShutdownFinished,
}

/// What the application has to do in answer to an event.
#[derive(Debug, Clone, Copy, PartialEq, Eq, Structural)]
pub enum LifecycleAction {
    /// Make sure that the server runs.
    EnsureRunning,
    /// Shut the supervisor down.
    Shutdown,
    /// Nothing.
    Nothing,
}

/// Whether an event calls for a shutdown.
pub open spec fn is_shutdown_trigger(event: LifecycleEvent) -> bool {
    event == LifecycleEvent::CloseRequested || event == LifecycleEvent::Exit
}

/// The phase that follows `phase` on `event`.
pub open spec fn next_phase(phase: Phase, event: LifecycleEvent) -> Phase {
    match event {
        LifecycleEvent::Setup => if phase == Phase::NotStarted {
            Phase::Running
        } else {
            phase
        },
        LifecycleEvent::CloseRequested | LifecycleEvent::Exit => if phase == Phase::Stopped {
            Phase::Stopped
        } else {
            Phase::ShuttingDown
        },
        LifecycleEvent::ShutdownFinished => if phase == Phase::ShuttingDown {
            Phase::Stopped
        } else {
            phase
        },
    }
}

/// The action that `event` calls for in `phase`. Setup starts the server
/// once. Every trigger of a shutdown calls the shutdown, the first as well
/// as any later one: a repeated shutdown finds nothing to kill.
pub open spec fn action_for(phase: Phase, event: LifecycleEvent) -> LifecycleAction {
    match event {
        LifecycleEvent::Setup => if phase == Phase::NotStarted {
            LifecycleAction::EnsureRunning
        } else {
            LifecycleAction::Nothing
        },
        LifecycleEvent::CloseRequested | LifecycleEvent::Exit => LifecycleAction::Shutdown,
        LifecycleEvent::ShutdownFinished => LifecycleAction::Nothing,
    }
}

/// Position of a phase in the order in which a run passes through them.
pub open spec fn rank(phase: Phase) -> nat {
    match phase {
        Phase::NotStarted => 0,
        Phase::Running => 1,
        Phase::ShuttingDown => 2,
        Phase::Stopped => 3,
    }
}

/// One step of the lifecycle: the phase after `event` and the action to
/// perform for it.
pub fn step(phase: Phase, event: LifecycleEvent) -> (next: (Phase, LifecycleAction))
    ensures
        next.0 == next_phase(phase, event),
        next.1 == action_for(phase, event),
{
    match event {
        LifecycleEvent::Setup => match phase {
            Phase::NotStarted => (Phase::Running, LifecycleAction::EnsureRunning),
            _ => (phase, LifecycleAction::Nothing),
        },
        LifecycleEvent::CloseRequested | LifecycleEvent::Exit => match phase {
            Phase::Stopped => (Phase::Stopped, LifecycleAction::Shutdown),
            _ => (Phase::ShuttingDown, LifecycleAction::Shutdown),
        },
        LifecycleEvent::ShutdownFinished => match phase {
            Phase::ShuttingDown => (Phase::Stopped, LifecycleAction::Nothing),
            _ => (phase, LifecycleAction::Nothing),
        },
    }
}

/// The phase reached from `start` after all of `events`, in order.
pub open spec fn phase_after(start: Phase, events: Seq<LifecycleEvent>) -> Phase
    decreases events.len(),
{
    if events.len() == 0 {
        start
    } else {
        next_phase(phase_after(start, events.drop_last()), events.last())
    }
}

/// How often a run of `events` from `start` asks to start the server.
pub open spec fn startups(start: Phase, events: Seq<LifecycleEvent>) -> nat
    decreases events.len(),
{
    if events.len() == 0 {
        0
    } else {
        let before = events.drop_last();
        startups(start, before) + (if action_for(phase_after(start, before), events.last())
            == LifecycleAction::EnsureRunning {
            1nat
        } else {
            0nat
        })
    }
}

/// There are no reverse transitions: no event takes the lifecycle to an
/// earlier phase.
pub proof fn lemma_no_reverse_transition(phase: Phase, event: LifecycleEvent)
    ensures
        rank(phase) <= rank(next_phase(phase, event)),
{
}

/// Once stopped, the lifecycle stays stopped.
pub proof fn lemma_stopped_is_terminal(event: LifecycleEvent)
    ensures
        next_phase(Phase::Stopped, event) == Phase::Stopped,
{
}

/// A window close and an exit converge on the same shutdown: in every phase
/// both call for it and both lead to the same phase.
pub proof fn lemma_triggers_converge(phase: Phase)
    ensures
        action_for(phase, LifecycleEvent::CloseRequested) == LifecycleAction::Shutdown,
        action_for(phase, LifecycleEvent::Exit) == LifecycleAction::Shutdown,
        next_phase(phase, LifecycleEvent::CloseRequested) == next_phase(
            phase,
            LifecycleEvent::Exit,
        ),
{
}

/// A run never goes back: the phase after any events is no earlier than the
/// phase before them.
pub proof fn lemma_run_never_goes_back(start: Phase, events: Seq<LifecycleEvent>)
    ensures
        rank(start) <= rank(phase_after(start, events)),
    decreases events.len(),
{
    if events.len() > 0 {
        lemma_run_never_goes_back(start, events.drop_last());
        lemma_no_reverse_transition(phase_after(start, events.drop_last()), events.last());
    }
}

/// The server is started at most once per run, whatever events arrive and
/// in whatever order; and never in a run that begins after setup.
pub proof fn lemma_server_is_started_at_most_once(start: Phase, events: Seq<LifecycleEvent>)
    ensures
        startups(start, events) <= 1,
        start != Phase::NotStarted ==> startups(start, events) == 0,
        startups(start, events) == 1 ==> phase_after(start, events) != Phase::NotStarted,
    decreases events.len(),
{
    if events.len() > 0 {
        let before = events.drop_last();
        lemma_server_is_started_at_most_once(start, before);
        lemma_run_never_goes_back(start, before);
    }
}

} // verus!
