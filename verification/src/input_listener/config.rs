//! What an input listener is built from.

use std::sync::atomic::AtomicBool;
use std::sync::Arc;
use vstd::prelude::*;

use crate::config::keycode::Keycode;
use crate::gpio::Gpio;
use crate::input_listener::model::Cadence;
use crate::keyboard::Keyboard;

verus! {

/// Configuration for an individual key binding.
///
/// Durations are counted in nanoseconds.
pub struct KeyConfig<GPIO: Gpio> {
    pub gpio: GPIO,
    pub keycode: Keycode,
    pub debounce: u64,
    pub repeat: Option<RepeatConfig>,
}

/// Configuration for key auto-repeat, in nanoseconds: the wait before the
/// first repeat and the interval between repeats.
#[derive(Clone, Copy, Debug, PartialEq, Eq, Structural)]
pub struct RepeatConfig {
    pub delay: u64,
    pub rate: u64,
}

impl View for RepeatConfig {
    type V = Cadence;

    open spec fn view(&self) -> Cadence {
        Cadence { delay: self.delay as nat, rate: self.rate as nat }
    }
}

/// Configuration for an individual power switch.
pub struct PowerSwitch<GPIO: Gpio> {
    pub gpio: GPIO,
}

/// Configuration for the input listener.
pub struct InputListenerConfig<K: Keyboard, GPIO: Gpio> {
    pub exit: Arc<AtomicBool>,
    pub keyboard: K,
    pub keys: Vec<KeyConfig<GPIO>>,
    pub power_switches: Vec<PowerSwitch<GPIO>>,
    pub poll_interval: u64,
}

} // verus!
