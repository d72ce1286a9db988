use vstd::prelude::*;

verus! {

/// Asks the simulation to reset to its default state.
#[derive(Debug, Clone, Copy, PartialEq, Eq, Structural)]
pub struct ResetEvent;

/// Controls play, pause and single steps:
/// - a step event on a paused simulation steps it once;
/// - a step event on a running simulation pauses it and steps it once;
/// - any other event unpauses a paused simulation and pauses a running one.
#[derive(Debug, Clone, Copy, PartialEq, Eq, Structural)]
pub struct PlayPauseStepEvent {
    pub is_step_event: bool,
}

/// What a play/pause/step event does to the simulation.
#[derive(Debug, Clone, Copy, PartialEq, Eq, Structural)]
pub struct PlayPauseOutcome {
    /// Whether the simulation is paused afterwards.
    pub paused: bool,
    /// Whether the simulation advances by exactly one step.
    pub step_once: bool,
}

impl PlayPauseStepEvent {
    /// Create a new play/pause/step event.
    pub fn new(is_step_event: bool) -> (event: Self)
        ensures
            event.is_step_event == is_step_event,
    {
        Self { is_step_event: is_step_event }
    }

    /// What this event does to a simulation that is paused or not.
    pub fn outcome(&self, sim_paused: bool) -> (res: PlayPauseOutcome)
        ensures
            self.is_step_event ==> res == (PlayPauseOutcome { paused: true, step_once: true }),
            !self.is_step_event ==> res == (PlayPauseOutcome { paused: !sim_paused, step_once: false }),
    {
        if self.is_step_event {
            PlayPauseOutcome { paused: true, step_once: true }
        } else {
            PlayPauseOutcome { paused: !sim_paused, step_once: false }
        }
    }
}

} // verus!
