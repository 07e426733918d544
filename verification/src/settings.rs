//! The user's settings: how long each phase lasts and whether a phase starts
//! by itself when the one before it completes.

use crate::phase::Phase;
use vstd::prelude::*;

verus! {

/// Milliseconds in one second.
pub const MILLIS_PER_SECOND: u64 = 1000;

/// Milliseconds in one minute.
pub const MILLIS_PER_MINUTE: u64 = 60000;

/// How often the clock source is meant to fire while the timer runs, in
/// milliseconds.
pub const TICK_PERIOD: u64 = 10;

/// Length of the work phase when nothing else is configured: 45 minutes.
pub const DEFAULT_WORK_DURATION: u64 = 2700000;

/// Length of the break phase when nothing else is configured: 15 minutes.
pub const DEFAULT_BREAK_DURATION: u64 = 900000;

/// The adjustable settings. Durations are in milliseconds and must be positive.
#[derive(Clone, Copy, Debug, PartialEq, Eq, Structural)]
pub struct Settings {
    pub work_duration: u64,
    pub break_duration: u64,
    pub auto_start_work: bool,
    pub auto_start_break: bool,
}

impl Settings {
    /// Both durations are positive.
    pub open spec fn wf(self) -> bool {
        self.work_duration > 0 && self.break_duration > 0
    }

    /// How long the given phase lasts.
    pub open spec fn spec_duration_of(self, phase: Phase) -> u64 {
        match phase {
            Phase::Work => self.work_duration,
            Phase::Break => self.break_duration,
        }
    }

    /// Whether the given phase starts running by itself when the phase before
    /// it completes.
    pub open spec fn spec_auto_start(self, phase: Phase) -> bool {
        match phase {
            Phase::Work => self.auto_start_work,
            Phase::Break => self.auto_start_break,
        }
    }

    /// The settings used when none were stored, or the stored ones are unusable.
    pub open spec fn spec_default() -> Settings {
        Settings {
            work_duration: DEFAULT_WORK_DURATION,
            break_duration: DEFAULT_BREAK_DURATION,
            auto_start_work: false,
            auto_start_break: false,
        }
    }

    /// What the timer starts with, given what the preference store returned:
    /// the stored settings if there are any and they are well formed, else the
    /// defaults.
    pub open spec fn spec_from_loaded(loaded: Option<Settings>) -> Settings {
        match loaded {
            Some(s) => if s.wf() { s } else { Settings::spec_default() },
            None => Settings::spec_default(),
        }
    }

    /// Whether both durations are positive.
    pub fn is_valid(&self) -> (ok: bool)
        ensures
            ok == self.wf(),
    {
        self.work_duration > 0 && self.break_duration > 0
    }

    /// How long the given phase lasts.
    #[verifier::when_used_as_spec(spec_duration_of)]
    pub fn duration_of(self, phase: Phase) -> (duration: u64)
        ensures
            duration == self.spec_duration_of(phase),
    {
        match phase {
            Phase::Work => self.work_duration,
            Phase::Break => self.break_duration,
        }
    }

    /// Whether the given phase starts running by itself when the phase before
    /// it completes.
    #[verifier::when_used_as_spec(spec_auto_start)]
    pub fn auto_start(self, phase: Phase) -> (auto: bool)
        ensures
            auto == self.spec_auto_start(phase),
    {
        match phase {
            Phase::Work => self.auto_start_work,
            Phase::Break => self.auto_start_break,
        }
    }

    /// Picks the settings to start with from the outcome of loading them.
    pub fn from_loaded(loaded: Option<Settings>) -> (settings: Settings)
        ensures
            settings == Settings::spec_from_loaded(loaded),
            settings.wf(),
    {
        match loaded {
            Some(s) => {
                if s.is_valid() {
                    s
                } else {
                    Settings::default()
                }
            },
            None => Settings::default(),
        }
    }
}

impl Default for Settings {
    fn default() -> (settings: Settings)
        ensures
            settings == Settings::spec_default(),
    {
        Settings {
            work_duration: DEFAULT_WORK_DURATION,
            break_duration: DEFAULT_BREAK_DURATION,
            auto_start_work: false,
            auto_start_break: false,
        }
    }
}

} // verus!
