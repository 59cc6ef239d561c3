//! Turns sampled digital input lines into debounced keyboard events.
//!
//! The crate holds the per-key debounce and auto-repeat state machine, the
//! power-switch monitor and the polling pass that drives both, together with
//! the capability traits through which lines are read and key events are
//! emitted.

pub mod config;
pub mod gpio;
pub mod input_listener;
pub mod keyboard;
pub mod text;
