use vstd::prelude::*;

use crate::errors::EngineError;

verus! {

/// Which single-step optimiser a training driver runs.
#[derive(Clone, Copy, Debug, PartialEq, Eq, Structural)]
pub enum OptimiserKind {
    Linear,
    Logistic,
    Neural,
}

/// The configuration of a training driver: how many optimiser steps make one
/// burst, how many milliseconds it pauses between bursts, and which
/// optimiser it runs.
#[derive(Clone, Copy, Debug, PartialEq, Eq, Structural)]
pub struct DriverConfig {
    /// Steps executed under the exclusive handle in one burst.
    pub steps_per_burst: usize,
    /// Milliseconds slept between bursts, outside the critical section.
    pub pause_ms: u64,
    /// The optimiser driven.
    pub optimiser: OptimiserKind,
}

/// The life of a training driver. `Stopped` is terminal.
#[derive(Clone, Copy, Debug, PartialEq, Eq, Structural)]
pub enum DriverState {
    Idle,
    Running,
    Paused,
    Stopped,
}

/// What the driver is told between bursts. No event interrupts a burst:
/// cancellation and pausing take effect between bursts and between inner
/// steps only.
#[derive(Clone, Copy, Debug, PartialEq, Eq, Structural)]
pub enum DriverEvent {
    /// Begin training.
    Start,
    /// Enter `Paused` without holding the handle.
    Pause,
    /// Leave `Paused` and run again.
    Resume,
    /// Stop for good; the driver reports `Cancelled`.
    Cancel,
    /// The last burst finished cleanly.
    BurstDone,
    /// An optimiser step failed with this error.
    StepFailed(EngineError),
}

/// What the driver must do after a transition. Only `RunBurst` touches the
/// shared state handle.
#[derive(Clone, Copy, Debug, PartialEq, Eq, Structural)]
pub enum DriverAction {
    /// Acquire the handle, run one burst of steps, release it, then sleep
    /// for the configured pause.
    RunBurst,
    /// Wait for the next event without holding the handle.
    HoldOff,
    /// Report this error on the status channel and halt.
    Report(EngineError),
    /// Do nothing; the driver is finished.
    Halt,
}

/// The driver's state after an event: `Stopped` absorbs everything;
/// cancellation and step failure stop it from anywhere; `Start` wakes `Idle`,
/// `Pause` and `Resume` toggle `Running` and `Paused`; everything else
/// leaves the state alone.
pub open spec fn next_state(state: DriverState, event: DriverEvent) -> DriverState {
    match state {
        DriverState::Stopped => DriverState::Stopped,
        _ => match event {
            DriverEvent::Cancel => DriverState::Stopped,
            DriverEvent::StepFailed(_) => DriverState::Stopped,
            DriverEvent::Start => if state == DriverState::Idle {
                DriverState::Running
            } else {
                state
            },
            DriverEvent::Pause => if state == DriverState::Running {
                DriverState::Paused
            } else {
                state
            },
            DriverEvent::Resume => if state == DriverState::Paused {
                DriverState::Running
            } else {
                state
            },
            DriverEvent::BurstDone => state,
        },
    }
}

/// The action owed after an event: a burst whenever the driver ends up
/// running, a report of `Cancelled` or of the failing step's error whenever
/// the event stops it, waiting whenever it is idle or paused, and nothing
/// once it is stopped.
pub open spec fn next_action(state: DriverState, event: DriverEvent) -> DriverAction {
    if state == DriverState::Stopped {
        DriverAction::Halt
    } else {
        match event {
            DriverEvent::Cancel => DriverAction::Report(EngineError::Cancelled),
            DriverEvent::StepFailed(e) => DriverAction::Report(e),
            _ => match next_state(state, event) {
                DriverState::Running => DriverAction::RunBurst,
                _ => DriverAction::HoldOff,
            },
        }
    }
}

/// One step of the driver's state machine. The caller performs the returned
/// action: it is the only part with access to the shared handle, the clock
/// and the status channel.
pub fn driver_transition(state: DriverState, event: DriverEvent) -> (r: (
    DriverState,
    DriverAction,
))
    ensures
        r.0 == next_state(state, event),
        r.1 == next_action(state, event),
{
    if state == DriverState::Stopped {
        return (DriverState::Stopped, DriverAction::Halt);
    }
    match event {
        DriverEvent::Cancel => (DriverState::Stopped, DriverAction::Report(EngineError::Cancelled)),
        DriverEvent::StepFailed(e) => (DriverState::Stopped, DriverAction::Report(e)),
        DriverEvent::Start => {
            if state == DriverState::Idle {
                (DriverState::Running, DriverAction::RunBurst)
            } else if state == DriverState::Running {
                (state, DriverAction::RunBurst)
            } else {
                (state, DriverAction::HoldOff)
            }
        },
        DriverEvent::Pause => {
            if state == DriverState::Running {
                (DriverState::Paused, DriverAction::HoldOff)
            } else {
                (state, DriverAction::HoldOff)
            }
        },
        DriverEvent::Resume => {
            if state == DriverState::Paused {
                (DriverState::Running, DriverAction::RunBurst)
            } else if state == DriverState::Running {
                (state, DriverAction::RunBurst)
            } else {
                (state, DriverAction::HoldOff)
            }
        },
        DriverEvent::BurstDone => {
            if state == DriverState::Running {
                (state, DriverAction::RunBurst)
            } else {
                (state, DriverAction::HoldOff)
            }
        },
    }
}

/// A stopped driver stays stopped, whatever happens next.
pub proof fn lemma_stopped_is_terminal(event: DriverEvent)
    ensures
        next_state(DriverState::Stopped, event) == DriverState::Stopped,
{
}

/// Cancellation stops the driver from every state, and from every state but
/// `Stopped` it reports `Cancelled`.
pub proof fn lemma_cancel_stops(state: DriverState)
    ensures
        next_state(state, DriverEvent::Cancel) == DriverState::Stopped,
        state != DriverState::Stopped ==> next_action(state, DriverEvent::Cancel)
            == DriverAction::Report(EngineError::Cancelled),
{
}

/// Pausing a running driver and resuming it puts it back to running.
pub proof fn lemma_pause_resume_roundtrip()
    ensures
        next_state(
            next_state(DriverState::Running, DriverEvent::Pause),
            DriverEvent::Resume,
        ) == DriverState::Running,
{
}

/// Only a driver that ends up running is told to take the handle: paused,
/// idle and stopped drivers never hold it.
pub proof fn lemma_burst_only_when_running(state: DriverState, event: DriverEvent)
    ensures
        next_action(state, event) == DriverAction::RunBurst ==> next_state(state, event)
            == DriverState::Running,
{
}

/// A failing step stops a live driver and reports exactly that step's error.
pub proof fn lemma_step_failure_reported(state: DriverState, error: EngineError)
    ensures
        next_state(state, DriverEvent::StepFailed(error)) == DriverState::Stopped,
        state != DriverState::Stopped ==> next_action(state, DriverEvent::StepFailed(error))
            == DriverAction::Report(error),
{
}

} // verus!
