//! A keyboard that records what it is asked to emit.

use vstd::prelude::*;

use crate::keyboard::{Keyboard, KeyboardError, KEY_DOWN, KEY_REPEAT, KEY_UP};

verus! {

/// A keyboard that emits nothing and appends every event it is asked for,
/// as a keycode and an event value, to `events`. It accepts every event.
#[derive(Debug)]
pub struct MockKeyboard {
    pub events: Vec<(evdev::KeyCode, i32)>,
}

impl Default for MockKeyboard {
    fn default() -> (keyboard: Self)
        ensures
            keyboard.events@ == Seq::<(evdev::KeyCode, i32)>::empty(),
    {
        MockKeyboard { events: Vec::new() }
    }
}

impl Keyboard for MockKeyboard {
    open spec fn asked(&self) -> Seq<(evdev::KeyCode, i32)> {
        self.events@
    }

    fn key_down(&mut self, keycode: evdev::KeyCode) -> (sent: Result<(), KeyboardError>)
        ensures
            sent is Ok,
            final(self).events@ == old(self).events@.push((keycode, KEY_DOWN)),
    {
        self.events.push((keycode, KEY_DOWN));
        Ok(())
    }

    fn key_repeat(&mut self, keycode: evdev::KeyCode) -> (sent: Result<(), KeyboardError>)
        ensures
            sent is Ok,
            final(self).events@ == old(self).events@.push((keycode, KEY_REPEAT)),
    {
        self.events.push((keycode, KEY_REPEAT));
        Ok(())
    }

    fn key_up(&mut self, keycode: evdev::KeyCode) -> (sent: Result<(), KeyboardError>)
        ensures
            sent is Ok,
            final(self).events@ == old(self).events@.push((keycode, KEY_UP)),
    {
        self.events.push((keycode, KEY_UP));
        Ok(())
    }
}

} // verus!
