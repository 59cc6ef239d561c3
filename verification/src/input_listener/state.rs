//! The per-key debounce and auto-repeat state machine.

use vstd::prelude::*;

use crate::config::keycode::Keycode;
use crate::gpio::{Gpio, GpioValue};
use crate::input_listener::config::{KeyConfig, RepeatConfig};
use crate::input_listener::model::{step, Hold, OutEvent, Phase, Timing};

verus! {

/// The confirmed-pressed sub-states of a key.
#[derive(Clone, Copy, Debug, PartialEq, Eq, Structural)]
pub enum KeyHold {
    /// Pressed, with no repeat scheduled.
    Active,
    /// Pressed, waiting for the initial repeat delay to run out.
    RepeatPending { deadline: u128 },
    /// Pressed and repeating; the next repeat is due at `deadline`.
    Repeating { deadline: u128 },
}

impl View for KeyHold {
    type V = Hold;

    open spec fn view(&self) -> Hold {
        match *self {
            KeyHold::Active => Hold::Active,
            KeyHold::RepeatPending { deadline } => Hold::RepeatPending { deadline: deadline as nat },
            KeyHold::Repeating { deadline } => Hold::Repeating { deadline: deadline as nat },
        }
    }
}

/// The state of a key.
#[derive(Clone, Copy, Debug, PartialEq, Eq, Structural)]
pub enum KeyPhase {
    /// Released and settled.
    Idle,
    /// The line went active at `since`; the press is not confirmed yet.
    PendingPress { since: u64 },
    /// Confirmed pressed.
    Held(KeyHold),
    /// The line went inactive at `since` while pressed; a bounce returns the
    /// key to `revert`.
    PendingRelease { since: u64, revert: KeyHold },
}

impl View for KeyPhase {
    type V = Phase;

    open spec fn view(&self) -> Phase {
        match *self {
            KeyPhase::Idle => Phase::Idle,
            KeyPhase::PendingPress { since } => Phase::PendingPress { since: since as nat },
            KeyPhase::Held(hold) => Phase::Held(hold@),
            KeyPhase::PendingRelease { since, revert } => Phase::PendingRelease {
                since: since as nat,
                revert: revert@,
            },
        }
    }
}

/// The timing rules that a debounce duration and a repeat policy stand for.
pub open spec fn timing_of(debounce: u64, repeat: Option<RepeatConfig>) -> Timing {
    Timing {
        debounce: debounce as nat,
        repeat: match repeat {
            Some(policy) => Some(policy@),
            None => None,
        },
    }
}

/// What a key is, apart from its line and its keycode: its timing rules and
/// its current state.
pub struct KeyModel {
    pub timing: Timing,
    pub phase: Phase,
}

/// One key binding: its line, its keycode, its timing rules and the state of
/// its state machine.
pub struct KeyState<G: Gpio> {
    pub gpio: G,
    pub keycode: Keycode,
    pub debounce: u64,
    pub repeat: Option<RepeatConfig>,
    pub phase: KeyPhase,
}

impl<G: Gpio> View for KeyState<G> {
    type V = KeyModel;

    open spec fn view(&self) -> KeyModel {
        KeyModel { timing: timing_of(self.debounce, self.repeat), phase: self.phase@ }
    }
}

/// The key that a key binding starts as: Idle, with the line, keycode and
/// timing of `config`.
pub open spec fn initial_key<G: Gpio>(config: KeyConfig<G>) -> KeyState<G> {
    KeyState {
        gpio: config.gpio,
        keycode: config.keycode,
        debounce: config.debounce,
        repeat: config.repeat,
        phase: KeyPhase::Idle,
    }
}

impl<G: Gpio> KeyState<G> {
    /// A key in its initial state, Idle, with the line, keycode and timing of
    /// `config`.
    pub fn new(config: KeyConfig<G>) -> (key: Self)
        ensures
            key == initial_key(config),
    {
        KeyState {
            gpio: config.gpio,
            keycode: config.keycode,
            debounce: config.debounce,
            repeat: config.repeat,
            phase: KeyPhase::Idle,
        }
    }

    /// The pressed sub-state entered when a press is confirmed at `now`.
    fn confirmed(&self, now: u64) -> (hold: KeyHold)
        ensures
            hold@ == crate::input_listener::model::confirmed(self@.timing, now as nat),
    {
        match self.repeat {
            Some(policy) => KeyHold::RepeatPending { deadline: now as u128 + policy.delay as u128 },
            None => KeyHold::Active,
        }
    }

    /// The repeat rule for a pressed key that reads Enabled at `now`.
    fn sustain(&self, hold: KeyHold, now: u64) -> (next: (KeyHold, OutEvent))
        ensures
            (next.0@, next.1) == crate::input_listener::model::sustain(
                self@.timing,
                hold@,
                now as nat,
            ),
    {
        let due: bool = match hold {
            KeyHold::Active => false,
            KeyHold::RepeatPending { deadline } => now as u128 >= deadline,
            KeyHold::Repeating { deadline } => now as u128 >= deadline,
        };
        match self.repeat {
            Some(policy) => if due {
                (KeyHold::Repeating { deadline: now as u128 + policy.rate as u128 }, OutEvent::Repeat)
            } else {
                (hold, OutEvent::Nothing)
            },
            None => (hold, OutEvent::Nothing),
        }
    }

    /// Feed one reading, taken at time `now`, to the state machine.
    ///
    /// The key moves to the state that the transition function gives and the
    /// event of that transition is returned; line, keycode and timing are
    /// left as they were.
    pub fn handle_gpio_value(&mut self, value: GpioValue, now: u64) -> (event: OutEvent)
        ensures
            (final(self)@.phase, event) == step(old(self)@.timing, old(self)@.phase, value, now as nat),
            final(self)@.timing == old(self)@.timing,
            final(self).gpio == old(self).gpio,
            final(self).keycode == old(self).keycode,
    {
        match self.phase {
            KeyPhase::Idle => match value {
                GpioValue::Enabled => {
                    self.phase = KeyPhase::PendingPress { since: now };
                    OutEvent::Nothing
                },
                GpioValue::Disabled => OutEvent::Nothing,
            },
            KeyPhase::PendingPress { since } => match value {
                GpioValue::Disabled => {
                    self.phase = KeyPhase::Idle;
                    OutEvent::Nothing
                },
                GpioValue::Enabled => if now.saturating_sub(since) < self.debounce {
                    OutEvent::Nothing
                } else {
                    self.phase = KeyPhase::Held(self.confirmed(now));
                    OutEvent::Press
                },
            },
            KeyPhase::Held(hold) => match value {
                GpioValue::Disabled => {
                    self.phase = KeyPhase::PendingRelease { since: now, revert: hold };
                    OutEvent::Nothing
                },
                GpioValue::Enabled => {
                    let (next, event) = self.sustain(hold, now);
                    self.phase = KeyPhase::Held(next);
                    event
                },
            },
            KeyPhase::PendingRelease { since, revert } => match value {
                GpioValue::Enabled => {
                    self.phase = KeyPhase::Held(revert);
                    OutEvent::Nothing
                },
                GpioValue::Disabled => if now.saturating_sub(since) < self.debounce {
                    OutEvent::Nothing
                } else {
                    self.phase = KeyPhase::Idle;
                    OutEvent::Release
                },
            },
        }
    }
}

} // verus!
