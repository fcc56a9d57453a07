//! The stopwatch that runs while working: one decision per tick of the timer.

use vstd::prelude::*;
use crate::clock::{clock_text, format_duration};

verus! {

/// What the timer does on one tick.
pub enum TimerAction {
    /// Work has ended: the timer stops for good.
    Stop,
    /// On break: time does not advance, nothing is shown.
    Pause,
    /// One more second has passed: show this text beside the tray icon, then
    /// wait one second.
    Show(String),
}

/// Seconds counted while working and not on break.
pub struct Stopwatch {
    pub elapsed: u64,
}

impl Stopwatch {
    /// A stopwatch at zero.
    pub fn new() -> (r: Stopwatch)
        ensures
            r.elapsed == 0,
    {
        Stopwatch { elapsed: 0 }
    }

    /// Decides one tick from the current flags: stop once work has ended,
    /// hold while on break, and otherwise count one second and show the total.
    pub fn tick(&mut self, is_working: bool, is_on_break: bool) -> (r: TimerAction)
        requires
            is_working && !is_on_break ==> old(self).elapsed < u64::MAX,
        ensures
            !is_working ==> r is Stop && final(self).elapsed == old(self).elapsed,
            is_working && is_on_break ==> r is Pause && final(self).elapsed == old(
                self,
            ).elapsed,
            is_working && !is_on_break ==> final(self).elapsed == old(self).elapsed + 1 && match r {
                TimerAction::Show(t) => t@ == clock_text(final(self).elapsed as nat),
                _ => false,
            },
    {
        if !is_working {
            return TimerAction::Stop;
        }
        if is_on_break {
            return TimerAction::Pause;
        }
        self.elapsed = self.elapsed + 1;
        TimerAction::Show(format_duration(self.elapsed))
    }
}

} // verus!
