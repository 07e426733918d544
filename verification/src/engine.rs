//! The timer itself: the executable state machine, held to the model
//! transition by transition.

use crate::command::{Command, Effect};
use crate::model::TimerModel;
use crate::phase::{Phase, RunState};
use crate::settings::Settings;
use vstd::prelude::*;

verus! {

/// The timer. It keeps the interval of the current phase beside the settings
/// that it comes from; the two never differ.
#[derive(Clone, Copy, Debug)]
pub struct TimerEngine {
    phase: Phase,
    run_state: RunState,
    elapsed: u64,
    active_interval: u64,
    settings: Settings,
}

impl View for TimerEngine {
    type V = TimerModel;

    closed spec fn view(&self) -> TimerModel {
        TimerModel {
            phase: self.phase,
            run_state: self.run_state,
            elapsed: self.elapsed as nat,
            settings: self.settings,
        }
    }
}

impl TimerEngine {
    /// The kept interval is the one that the phase and the settings give,
    /// and the settings are well formed.
    #[verifier::type_invariant]
    spec fn inv(self) -> bool {
        &&& self.settings.wf()
        &&& self.active_interval == self.settings.spec_duration_of(self.phase)
    }

    /// A timer with the given settings: idle, at the start of a work phase.
    pub fn new(settings: Settings) -> (engine: TimerEngine)
        requires
            settings.wf(),
        ensures
            engine@ == TimerModel::initial(settings),
    {
        TimerEngine {
            phase: Phase::Work,
            run_state: RunState::Idle,
            elapsed: 0,
            active_interval: settings.work_duration,
            settings,
        }
    }

    pub fn phase(&self) -> (phase: Phase)
        ensures
            phase == self@.phase,
    {
        self.phase
    }

    pub fn run_state(&self) -> (run_state: RunState)
        ensures
            run_state == self@.run_state,
    {
        self.run_state
    }

    /// Whether the timer is advancing. The clock source needs to fire only
    /// while it is.
    pub fn is_running(&self) -> (running: bool)
        ensures
            running == self@.is_running(),
    {
        match self.run_state {
            RunState::Idle => false,
            RunState::Running { .. } => true,
        }
    }

    /// Time counted in the current phase, in milliseconds.
    pub fn elapsed(&self) -> (elapsed: u64)
        ensures
            elapsed == self@.elapsed,
    {
        self.elapsed
    }

    /// The length of the current phase, in milliseconds.
    pub fn active_interval(&self) -> (interval: u64)
        ensures
            interval == self@.active_interval(),
            interval > 0,
    {
        proof {
            use_type_invariant(self);
        }
        self.active_interval
    }

    pub fn settings(&self) -> (settings: Settings)
        ensures
            settings == self@.settings,
            settings.wf(),
    {
        proof {
            use_type_invariant(self);
        }
        self.settings
    }

    /// Start when idle, counting from zero and from `now`; pause when
    /// running, keeping the elapsed time.
    pub fn toggle(&mut self, now: u64)
        ensures
            final(self)@ == old(self)@.toggle(now),
    {
        proof {
            use_type_invariant(&*self);
        }
        match self.run_state {
            RunState::Idle => {
                *self = TimerEngine {
                    phase: self.phase,
                    run_state: RunState::Running { last_tick: now },
                    elapsed: 0,
                    active_interval: self.settings.duration_of(self.phase),
                    settings: self.settings,
                };
            },
            RunState::Running { .. } => {
                self.run_state = RunState::Idle;
            },
        }
    }

    /// A tick of the clock with timestamp `now`. Idle, the timer ignores it.
    /// Running, it adds the time since the last counted tick, or nothing if
    /// `now` lies before that tick; once the elapsed time has reached the
    /// interval the phase completes, and the effect names that phase.
    pub fn tick(&mut self, now: u64) -> (effect: Effect)
        ensures
            final(self)@ == old(self)@.tick(now),
            effect == old(self)@.tick_effect(now),
    {
        proof {
            use_type_invariant(&*self);
        }
        match self.run_state {
            RunState::Idle => Effect::none(),
            RunState::Running { last_tick } => {
                let delta: u64 = if now >= last_tick {
                    now - last_tick
                } else {
                    0
                };
                let advanced: u64 = if now >= last_tick {
                    now
                } else {
                    last_tick
                };
                if self.elapsed >= self.active_interval || delta >= self.active_interval
                    - self.elapsed {
                    let completed = self.phase;
                    let next = completed.other();
                    *self = TimerEngine {
                        phase: next,
                        run_state: if self.settings.auto_start(next) {
                            RunState::Running { last_tick: advanced }
                        } else {
                            RunState::Idle
                        },
                        elapsed: 0,
                        active_interval: self.settings.duration_of(next),
                        settings: self.settings,
                    };
                    Effect { completed: Some(completed), persist: false }
                } else {
                    *self = TimerEngine {
                        phase: self.phase,
                        run_state: RunState::Running { last_tick: advanced },
                        elapsed: self.elapsed + delta,
                        active_interval: self.active_interval,
                        settings: self.settings,
                    };
                    Effect::none()
                }
            },
        }
    }

    /// Stop and discard the elapsed time. The phase stays as it is.
    pub fn reset(&mut self)
        ensures
            final(self)@ == old(self)@.reset(),
    {
        proof {
            use_type_invariant(&*self);
        }
        *self = TimerEngine {
            phase: self.phase,
            run_state: RunState::Idle,
            elapsed: 0,
            active_interval: self.settings.duration_of(self.phase),
            settings: self.settings,
        };
    }

    /// Go to the other phase by hand: idle, nothing elapsed.
    pub fn switch_phase(&mut self)
        ensures
            final(self)@ == old(self)@.switch_phase(),
    {
        proof {
            use_type_invariant(&*self);
        }
        let next = self.phase.other();
        *self = TimerEngine {
            phase: next,
            run_state: RunState::Idle,
            elapsed: 0,
            active_interval: self.settings.duration_of(next),
            settings: self.settings,
        };
    }

    /// Set the length of the work phase. During work the interval follows at
    /// once; during a break it stays as it is.
    pub fn set_work_duration(&mut self, duration: u64)
        requires
            duration > 0,
        ensures
            final(self)@ == old(self)@.set_work_duration(duration),
    {
        proof {
            use_type_invariant(&*self);
        }
        let settings = Settings {
            work_duration: duration,
            break_duration: self.settings.break_duration,
            auto_start_work: self.settings.auto_start_work,
            auto_start_break: self.settings.auto_start_break,
        };
        *self = TimerEngine {
            phase: self.phase,
            run_state: self.run_state,
            elapsed: self.elapsed,
            active_interval: settings.duration_of(self.phase),
            settings,
        };
    }

    /// Set the length of the break phase. During a break the interval follows
    /// at once; during work it stays as it is.
    pub fn set_break_duration(&mut self, duration: u64)
        requires
            duration > 0,
        ensures
            final(self)@ == old(self)@.set_break_duration(duration),
    {
        proof {
            use_type_invariant(&*self);
        }
        let settings = Settings {
            work_duration: self.settings.work_duration,
            break_duration: duration,
            auto_start_work: self.settings.auto_start_work,
            auto_start_break: self.settings.auto_start_break,
        };
        *self = TimerEngine {
            phase: self.phase,
            run_state: self.run_state,
            elapsed: self.elapsed,
            active_interval: settings.duration_of(self.phase),
            settings,
        };
    }

    /// Set whether work starts by itself when a break completes.
    pub fn set_auto_start_work(&mut self, auto: bool)
        ensures
            final(self)@ == old(self)@.set_auto_start_work(auto),
    {
        proof {
            use_type_invariant(&*self);
        }
        self.settings.auto_start_work = auto;
    }

    /// Set whether a break starts by itself when work completes.
    pub fn set_auto_start_break(&mut self, auto: bool)
        ensures
            final(self)@ == old(self)@.set_auto_start_break(auto),
    {
        proof {
            use_type_invariant(&*self);
        }
        self.settings.auto_start_break = auto;
    }

    /// Handle one event at time `now` and say what the surroundings have to
    /// do. Only `Toggle` reads `now`; a tick carries its own timestamp.
    pub fn update(&mut self, command: Command, now: u64) -> (effect: Effect)
        requires
            command.wf(),
        ensures
            final(self)@ == old(self)@.step(command, now),
            effect == old(self)@.effect(command),
    {
        match command {
            Command::Toggle => {
                self.toggle(now);
                Effect::none()
            },
            Command::Tick(at) => self.tick(at),
            Command::Reset => {
                self.reset();
                Effect::none()
            },
            Command::SwitchPhase => {
                self.switch_phase();
                Effect::none()
            },
            Command::SetWorkDuration(v) => {
                self.set_work_duration(v);
                Effect { completed: None, persist: true }
            },
            Command::SetBreakDuration(v) => {
                self.set_break_duration(v);
                Effect { completed: None, persist: true }
            },
            Command::SetAutoStartWork(b) => {
                self.set_auto_start_work(b);
                Effect { completed: None, persist: true }
            },
            Command::SetAutoStartBreak(b) => {
                self.set_auto_start_break(b);
                Effect { completed: None, persist: true }
            },
            Command::ToggleSettingsPanel => Effect::none(),
        }
    }
}

} // verus!
