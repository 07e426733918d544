//! A work/break interval timer: the timer state machine, what it shows, and
//! the rules that tie manual controls to automatic phase changes.
//!
//! All times are whole milliseconds. Timestamps are readings of one clock,
//! counted from an origin that the caller picks.

pub mod clock;
pub mod command;
pub mod display;
pub mod engine;
pub mod laws;
pub mod model;
pub mod phase;
pub mod settings;
