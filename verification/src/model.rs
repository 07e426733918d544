//! The timer as a mathematical state machine: its state, and each transition
//! as a function from state to state.

use crate::command::{Command, Effect};
use crate::phase::{Phase, RunState};
use crate::settings::Settings;
use vstd::prelude::*;

verus! {

/// The state of the timer. The interval that governs the current phase is
/// not part of it: it follows from the phase and the settings.
pub struct TimerModel {
    pub phase: Phase,
    pub run_state: RunState,
    /// Time counted in the current phase, in milliseconds.
    pub elapsed: nat,
    pub settings: Settings,
}

impl TimerModel {
    /// The settings are well formed.
    pub open spec fn wf(self) -> bool {
        self.settings.wf()
    }

    /// The state the timer is created in: idle, at the start of a work phase.
    pub open spec fn initial(settings: Settings) -> TimerModel {
        TimerModel { phase: Phase::Work, run_state: RunState::Idle, elapsed: 0, settings }
    }

    /// The length of the current phase.
    pub open spec fn active_interval(self) -> nat {
        self.settings.spec_duration_of(self.phase) as nat
    }

    pub open spec fn is_running(self) -> bool {
        self.run_state is Running
    }

    /// Time left in the current phase; never negative.
    pub open spec fn remaining(self) -> nat {
        if self.elapsed >= self.active_interval() {
            0
        } else {
            (self.active_interval() - self.elapsed) as nat
        }
    }

    /// Start when idle, counting from zero and from `now`; pause when
    /// running, keeping the elapsed time.
    pub open spec fn toggle(self, now: u64) -> TimerModel {
        match self.run_state {
            RunState::Idle => TimerModel {
                run_state: RunState::Running { last_tick: now },
                elapsed: 0,
                ..self
            },
            RunState::Running { .. } => TimerModel { run_state: RunState::Idle, ..self },
        }
    }

    /// The time that a tick at `now` adds: the time since the last counted
    /// tick, and nothing if the timer is idle or `now` lies before that tick.
    pub open spec fn tick_delta(self, now: u64) -> nat {
        match self.run_state {
            RunState::Idle => 0,
            RunState::Running { last_tick } => if now >= last_tick {
                (now - last_tick) as nat
            } else {
                0
            },
        }
    }

    /// The elapsed time once a tick at `now` is counted, before it is held
    /// against the interval.
    pub open spec fn accumulated(self, now: u64) -> nat {
        self.elapsed + self.tick_delta(now)
    }

    /// The timestamp that the next tick is measured from, once a tick at
    /// `now` is counted: it never moves backwards.
    pub open spec fn advanced_tick(self, now: u64) -> u64 {
        match self.run_state {
            RunState::Idle => now,
            RunState::Running { last_tick } => if now >= last_tick {
                now
            } else {
                last_tick
            },
        }
    }

    /// Whether a tick at `now` completes the current phase.
    pub open spec fn completes(self, now: u64) -> bool {
        self.is_running() && self.accumulated(now) >= self.active_interval()
    }

    /// The state after the current phase has completed at a tick whose
    /// timestamp leaves `last_tick` as the point to measure from: the other
    /// phase, nothing elapsed, and running only if that phase starts by itself.
    pub open spec fn complete_phase(self, last_tick: u64) -> TimerModel {
        let next = self.phase.spec_other();
        TimerModel {
            phase: next,
            run_state: if self.settings.spec_auto_start(next) {
                RunState::Running { last_tick }
            } else {
                RunState::Idle
            },
            elapsed: 0,
            settings: self.settings,
        }
    }

    /// A tick of the clock. Idle, the timer ignores it.
    pub open spec fn tick(self, now: u64) -> TimerModel {
        if !self.is_running() {
            self
        } else if self.completes(now) {
            self.complete_phase(self.advanced_tick(now))
        } else {
            TimerModel {
                run_state: RunState::Running { last_tick: self.advanced_tick(now) },
                elapsed: self.accumulated(now),
                ..self
            }
        }
    }

    /// Stop and discard the elapsed time. The phase stays as it is.
    pub open spec fn reset(self) -> TimerModel {
        TimerModel { run_state: RunState::Idle, elapsed: 0, ..self }
    }

    /// Go to the other phase by hand: idle, nothing elapsed.
    pub open spec fn switch_phase(self) -> TimerModel {
        TimerModel {
            phase: self.phase.spec_other(),
            run_state: RunState::Idle,
            elapsed: 0,
            settings: self.settings,
        }
    }

    pub open spec fn with_settings(self, settings: Settings) -> TimerModel {
        TimerModel { settings, ..self }
    }

    pub open spec fn set_work_duration(self, duration: u64) -> TimerModel {
        self.with_settings(Settings { work_duration: duration, ..self.settings })
    }

    pub open spec fn set_break_duration(self, duration: u64) -> TimerModel {
        self.with_settings(Settings { break_duration: duration, ..self.settings })
    }

    pub open spec fn set_auto_start_work(self, auto: bool) -> TimerModel {
        self.with_settings(Settings { auto_start_work: auto, ..self.settings })
    }

    pub open spec fn set_auto_start_break(self, auto: bool) -> TimerModel {
        self.with_settings(Settings { auto_start_break: auto, ..self.settings })
    }

    /// The state after `command`, handled at time `now`. Only `Toggle` reads
    /// `now`; a tick carries its own timestamp.
    pub open spec fn step(self, command: Command, now: u64) -> TimerModel {
        match command {
            Command::Toggle => self.toggle(now),
            Command::Tick(at) => self.tick(at),
            Command::Reset => self.reset(),
            Command::SwitchPhase => self.switch_phase(),
            Command::SetWorkDuration(v) => self.set_work_duration(v),
            Command::SetBreakDuration(v) => self.set_break_duration(v),
            Command::SetAutoStartWork(b) => self.set_auto_start_work(b),
            Command::SetAutoStartBreak(b) => self.set_auto_start_break(b),
            Command::ToggleSettingsPanel => self,
        }
    }

    /// What a tick at `now` asks of the surroundings: to announce the phase
    /// that it completed, if it completed one.
    pub open spec fn tick_effect(self, now: u64) -> Effect {
        Effect {
            completed: if self.completes(now) {
                Some(self.phase)
            } else {
                None
            },
            persist: false,
        }
    }

    /// What `command` asks of the surroundings.
    pub open spec fn effect(self, command: Command) -> Effect {
        match command {
            Command::Tick(at) => self.tick_effect(at),
            _ => Effect { completed: None, persist: command.changes_settings() },
        }
    }
}

} // verus!
