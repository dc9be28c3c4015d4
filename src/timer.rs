//! The pause that follows a goal.
use vstd::prelude::*;

verus! {

/// Length of the pause after a goal, in microseconds.
pub const GOAL_PAUSE_MICROS: u64 = 1_000_000;

/// Time left of the pause after a goal.
#[derive(Clone, Copy, Debug, PartialEq, Eq, Structural)]
pub struct GoalTimer {
    pub remaining_micros: u64,
}

impl GoalTimer {
    /// A full pause.
    pub fn start() -> (r: GoalTimer)
        ensures
            r.remaining_micros == GOAL_PAUSE_MICROS,
    {
        GoalTimer { remaining_micros: GOAL_PAUSE_MICROS }
    }

    /// The timer after `elapsed_micros` more time, stopping at zero.
    pub open spec fn after(self, elapsed_micros: u64) -> GoalTimer {
        GoalTimer {
            remaining_micros: if elapsed_micros >= self.remaining_micros {
                0
            } else {
                (self.remaining_micros - elapsed_micros) as u64
            },
        }
    }

    /// Advances the timer by one tick's elapsed time.
    pub fn tick(&mut self, elapsed_micros: u64)
        ensures
            *final(self) == old(self).after(elapsed_micros),
    {
        if elapsed_micros >= self.remaining_micros {
            self.remaining_micros = 0;
        } else {
            self.remaining_micros = self.remaining_micros - elapsed_micros;
        }
    }

    /// The pause is over.
    pub fn finished(&self) -> (r: bool)
        ensures
            r == (self.remaining_micros == 0),
    {
        self.remaining_micros == 0
    }
}

} // verus!
