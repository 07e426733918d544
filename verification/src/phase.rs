//! The two phases of the timer, and whether it is advancing.

use vstd::prelude::*;

verus! {

/// Which of the two intervals is being counted.
#[derive(Clone, Copy, Debug, PartialEq, Eq, Structural)]
pub enum Phase {
    Work,
    Break,
}

impl Phase {
    /// The phase that follows this one.
    pub open spec fn spec_other(self) -> Phase {
        match self {
            Phase::Work => Phase::Break,
            Phase::Break => Phase::Work,
        }
    }

    /// The phase that follows this one.
    #[verifier::when_used_as_spec(spec_other)]
    pub fn other(self) -> (next: Phase)
        ensures
            next == self.spec_other(),
    {
        match self {
            Phase::Work => Phase::Break,
            Phase::Break => Phase::Work,
        }
    }
}

/// Whether the timer is advancing. While it runs it remembers the timestamp
/// of the last tick that it counted, so that the next tick adds only the time
/// since then.
#[derive(Clone, Copy, Debug, PartialEq, Eq, Structural)]
pub enum RunState {
    Idle,
    Running { last_tick: u64 },
}

} // verus!
