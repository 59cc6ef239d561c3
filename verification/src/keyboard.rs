//! The virtual keyboard capability.

pub mod key_set;
pub mod mock;

use vstd::prelude::*;

pub use self::mock::MockKeyboard;

verus! {

/// The value of a key event that reports a key going down.
pub const KEY_DOWN: i32 = 1;

/// The value of a key event that reports a key going up.
pub const KEY_UP: i32 = 0;

/// The value of a key event that reports a held key repeating.
pub const KEY_REPEAT: i32 = 2;

/// Why a key event could not be emitted.
#[derive(Debug)]
pub struct KeyboardError {
    pub message: String,
}

/// A keyboard that key events are emitted through.
///
/// Every operation is fallible and whether it succeeds is decided by the
/// device alone: the trait promises nothing of the result. What the trait
/// fixes is what the keyboard has been asked for: every operation adds its
/// own event to that history, whether the device then takes it or not.
///
/// `asked` has a default so that a keyboard can be implemented where no
/// specification can be written. The default is no history: code that is
/// generic over the keyboard learns nothing from it, and a keyboard that is
/// to be verified against the clauses below defines its own. Of a keyboard
/// that keeps the default, what is proved through this trait says which
/// operations were called, in which order and with which keycodes.
pub trait Keyboard {
    /// The events that the keyboard has been asked to emit so far, as
    /// keycode and event value, oldest first.
    open spec fn asked(&self) -> Seq<(evdev::KeyCode, i32)> {
        Seq::<(evdev::KeyCode, i32)>::empty()
    }

    /// Emit a key up event.
    fn key_up(&mut self, keycode: evdev::KeyCode) -> (sent: Result<(), KeyboardError>)
        ensures
            final(self).asked() == old(self).asked().push((keycode, KEY_UP)),
    ;

    /// Emit a key down event.
    fn key_down(&mut self, keycode: evdev::KeyCode) -> (sent: Result<(), KeyboardError>)
        ensures
            final(self).asked() == old(self).asked().push((keycode, KEY_DOWN)),
    ;

    /// Emit a key repeat event.
    fn key_repeat(&mut self, keycode: evdev::KeyCode) -> (sent: Result<(), KeyboardError>)
        ensures
            final(self).asked() == old(self).asked().push((keycode, KEY_REPEAT)),
    ;
}

} // verus!
