//! What can be asked of the timer, and what it asks of its surroundings in
//! return.

use crate::phase::Phase;
use vstd::prelude::*;
use vstd::string::StrSliceExecFns;

verus! {

/// One event for the timer: a tick of the clock or a user's command.
#[derive(Clone, Copy, Debug, PartialEq, Eq, Structural)]
pub enum Command {
    /// Start when idle, pause when running.
    Toggle,
    /// The clock source fired; the value is the timestamp it carries.
    Tick(u64),
    /// Stop and discard the elapsed time of the current phase.
    Reset,
    /// Go to the other phase by hand.
    SwitchPhase,
    /// Set the length of the work phase, in milliseconds.
    SetWorkDuration(u64),
    /// Set the length of the break phase, in milliseconds.
    SetBreakDuration(u64),
    /// Set whether work starts by itself when a break completes.
    SetAutoStartWork(bool),
    /// Set whether a break starts by itself when work completes.
    SetAutoStartBreak(bool),
    /// Show or hide the settings panel; this does not concern the timer.
    ToggleSettingsPanel,
}

impl Command {
    /// A command that sets a duration carries a positive one.
    pub open spec fn wf(self) -> bool {
        match self {
            Command::SetWorkDuration(v) => v > 0,
            Command::SetBreakDuration(v) => v > 0,
            _ => true,
        }
    }

    /// Whether the command changes the settings, which are stored again
    /// after each change.
    pub open spec fn changes_settings(self) -> bool {
        match self {
            Command::SetWorkDuration(_) => true,
            Command::SetBreakDuration(_) => true,
            Command::SetAutoStartWork(_) => true,
            Command::SetAutoStartBreak(_) => true,
            _ => false,
        }
    }

    /// Whether a command that sets a duration carries a positive one.
    pub fn is_valid(&self) -> (ok: bool)
        ensures
            ok == self.wf(),
    {
        match self {
            Command::SetWorkDuration(v) => *v > 0,
            Command::SetBreakDuration(v) => *v > 0,
            _ => true,
        }
    }
}

/// A key that was pressed, as far as the timer tells keys apart.
#[derive(Clone, Copy, Debug)]
pub enum KeyPress<'a> {
    /// The space bar.
    Space,
    /// A key that produces text, with the text it produces.
    Character(&'a str),
    /// Any other key.
    Other,
}

impl<'a> KeyPress<'a> {
    /// The command bound to the key: space starts and pauses, a lower-case
    /// `r` resets, no other key does anything.
    pub open spec fn spec_command(self) -> Option<Command> {
        match self {
            KeyPress::Space => Some(Command::Toggle),
            KeyPress::Character(text) => if text@ == seq!['r'] {
                Some(Command::Reset)
            } else {
                None
            },
            KeyPress::Other => None,
        }
    }

    /// The command bound to the key, if there is one.
    pub fn command(self) -> (bound: Option<Command>)
        ensures
            bound == self.spec_command(),
    {
        match self {
            KeyPress::Space => Some(Command::Toggle),
            KeyPress::Character(text) => {
                if text.unicode_len() == 1 && text.get_char(0) == 'r' {
                    assert(text@ =~= seq!['r']);
                    Some(Command::Reset)
                } else {
                    None
                }
            },
            KeyPress::Other => None,
        }
    }
}

/// What the surroundings have to do after the timer handled an event.
#[derive(Clone, Copy, Debug, PartialEq, Eq)]
pub struct Effect {
    /// The phase that has just completed, of which the user is to be
    /// notified; `None` if none has.
    pub completed: Option<Phase>,
    /// Whether the settings changed and have to be stored.
    pub persist: bool,
}

impl Effect {
    /// Nothing to do.
    pub open spec fn spec_none() -> Effect {
        Effect { completed: None, persist: false }
    }

    /// Nothing to do.
    #[verifier::when_used_as_spec(spec_none)]
    pub fn none() -> (effect: Effect)
        ensures
            effect == Effect::spec_none(),
    {
        Effect { completed: None, persist: false }
    }
}

} // verus!
