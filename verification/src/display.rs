//! What the timer shows: the time left, how far the phase has come, its
//! labels, and the message that announces a completed phase.

use crate::clock::{clock_text, format_clock};
use crate::engine::TimerEngine;
use crate::model::TimerModel;
use crate::phase::Phase;
use vstd::prelude::*;

verus! {

/// The message that announces that `completed` is over.
pub open spec fn spec_completion_message(completed: Phase) -> Seq<char> {
    match completed {
        Phase::Work => "Time for a break!"@,
        Phase::Break => "Time to get back to work!"@,
    }
}

/// The message that announces that `completed` is over: after work it calls
/// for a break, after a break it calls back to work.
pub fn completion_message(completed: Phase) -> (message: &'static str)
    ensures
        message@ == spec_completion_message(completed),
{
    match completed {
        Phase::Work => "Time for a break!",
        Phase::Break => "Time to get back to work!",
    }
}

impl TimerModel {
    /// How far the current phase has come, as a part of `scale`, rounded
    /// down: 0 at the start, `scale` once the interval is reached.
    pub open spec fn progress(self, scale: nat) -> nat {
        if self.elapsed >= self.active_interval() {
            scale
        } else {
            self.elapsed * scale / self.active_interval()
        }
    }

    /// The time left, as `HH:MM:SS`.
    pub open spec fn remaining_clock(self) -> Seq<char> {
        clock_text(self.remaining())
    }

    /// The label above the clock.
    pub open spec fn phase_label(self) -> Seq<char> {
        match self.phase {
            Phase::Work => if self.is_running() {
                "Working!"@
            } else {
                "Start Working!"@
            },
            Phase::Break => "Break Time!"@,
        }
    }

    /// The label of the control that starts and pauses the timer.
    pub open spec fn toggle_label(self) -> Seq<char> {
        if self.is_running() {
            "Pause"@
        } else {
            "Start"@
        }
    }
}

impl TimerEngine {
    /// Time left in the current phase, in milliseconds; never negative.
    pub fn remaining(&self) -> (remaining: u64)
        ensures
            remaining == self@.remaining(),
    {
        let interval = self.active_interval();
        let elapsed = self.elapsed();
        if interval <= elapsed {
            0
        } else {
            interval - elapsed
        }
    }

    /// The time left, as `HH:MM:SS`.
    pub fn remaining_clock(&self) -> (text: String)
        ensures
            text@ == self@.remaining_clock(),
    {
        format_clock(self.remaining())
    }

    /// How far the current phase has come, as a part of `scale`, rounded
    /// down and never more than `scale`.
    pub fn progress(&self, scale: u64) -> (part: u64)
        ensures
            part == self@.progress(scale as nat),
            part <= scale,
    {
        let interval = self.active_interval();
        let elapsed = self.elapsed();
        if elapsed >= interval {
            scale
        } else {
            assert(elapsed * scale <= interval * scale) by (nonlinear_arith)
                requires
                    elapsed <= interval,
                    scale >= 0,
            ;
            assert(elapsed * scale <= u64::MAX * u64::MAX) by (nonlinear_arith)
                requires
                    elapsed <= u64::MAX,
                    scale <= u64::MAX,
                    elapsed >= 0,
                    scale >= 0,
            ;
            let scaled: u128 = (elapsed as u128) * (scale as u128);
            let part: u128 = scaled / (interval as u128);
            assert(elapsed * scale / (interval as int) <= scale) by (nonlinear_arith)
                requires
                    elapsed * scale <= interval * scale,
                    interval > 0,
            ;
            part as u64
        }
    }

    /// The label above the clock.
    pub fn phase_label(&self) -> (label: &'static str)
        ensures
            label@ == self@.phase_label(),
    {
        match self.phase() {
            Phase::Work => if self.is_running() {
                "Working!"
            } else {
                "Start Working!"
            },
            Phase::Break => "Break Time!",
        }
    }

    /// The label of the control that starts and pauses the timer.
    pub fn toggle_label(&self) -> (label: &'static str)
        ensures
            label@ == self@.toggle_label(),
    {
        if self.is_running() {
            "Pause"
        } else {
            "Start"
        }
    }
}

} // verus!
