//! The polling pass over keys and power switches.

pub mod config;
pub mod laws;
pub mod model;
pub mod state;

use std::sync::atomic::AtomicBool;
use std::sync::Arc;
use vstd::prelude::*;

pub use self::config::{InputListenerConfig, KeyConfig, PowerSwitch, RepeatConfig};
pub use self::model::OutEvent;
pub use self::state::KeyState;
use crate::config::keycode::evdev_key;
use crate::gpio::{Gpio, GpioError, GpioValue};
use crate::input_listener::model::{step, Phase};
use crate::input_listener::state::{initial_key, KeyModel};
use crate::keyboard::{Keyboard, KeyboardError, KEY_DOWN, KEY_REPEAT, KEY_UP};

verus! {

/// What one poll of one key did.
#[derive(Debug)]
pub struct KeyPoll {
    /// What reading the line gave.
    pub reading: Result<GpioValue, GpioError>,
    /// The event that the state machine emitted.
    pub event: OutEvent,
    /// Why the keyboard refused the event, if it did.
    pub failure: Option<KeyboardError>,
}

/// What one poll of one power switch did.
#[derive(Debug)]
pub struct SwitchPoll {
    /// What reading the line gave.
    pub reading: Result<GpioValue, GpioError>,
    /// Whether the switch asks for the system to be shut down.
    pub shutdown: bool,
}

/// What one pass over all keys and all power switches did, entry by entry
/// in configuration order.
#[derive(Debug)]
pub struct TickReport {
    pub keys: Vec<KeyPoll>,
    pub power_switches: Vec<SwitchPoll>,
}

/// The state that a key is left in, and the event it emits, when a poll at
/// time `now` gives `reading`: a failed read leaves the key as it is and
/// emits nothing.
pub open spec fn fed(key: KeyModel, reading: Result<GpioValue, GpioError>, now: nat) -> (
    Phase,
    OutEvent,
) {
    match reading {
        Ok(value) => step(key.timing, key.phase, value, now),
        Err(_) => (key.phase, OutEvent::Nothing),
    }
}

/// The keyboard calls that an event of the key with event code `keycode`
/// is translated into: key down for Press, key up for Release, key repeat
/// for Repeat, each once and with that code, and no call for no event.
pub open spec fn calls_of(event: OutEvent, keycode: evdev::KeyCode) -> Seq<(evdev::KeyCode, i32)> {
    match event {
        OutEvent::Nothing => Seq::<(evdev::KeyCode, i32)>::empty(),
        OutEvent::Press => seq![(keycode, KEY_DOWN)],
        OutEvent::Release => seq![(keycode, KEY_UP)],
        OutEvent::Repeat => seq![(keycode, KEY_REPEAT)],
    }
}

/// The keyboard calls that the polls of the first `n` keys make, in the
/// order of the keys.
pub open spec fn calls_in<G: Gpio>(keys: Seq<KeyState<G>>, polls: Seq<KeyPoll>, n: nat) -> Seq<
    (evdev::KeyCode, i32),
>
    decreases n,
{
    if n == 0 {
        Seq::<(evdev::KeyCode, i32)>::empty()
    } else {
        calls_in(keys, polls, (n - 1) as nat) + calls_of(
            polls[n - 1].event,
            evdev_key(keys[n - 1].keycode.raw()),
        )
    }
}

/// An event is translated into one keyboard call at most, and into none
/// exactly when it is no event.
pub proof fn lemma_one_call_at_most(event: OutEvent, keycode: evdev::KeyCode)
    ensures
        calls_of(event, keycode).len() <= 1,
        calls_of(event, keycode).len() == 0 <==> event == OutEvent::Nothing,
{
}

/// The calls of the first `n` polls do not depend on the polls after them.
proof fn lemma_calls_of_prefix<G: Gpio>(
    keys: Seq<KeyState<G>>,
    polls: Seq<KeyPoll>,
    longer: Seq<KeyPoll>,
    n: nat,
)
    requires
        n <= polls.len() <= longer.len(),
        forall|m: int| 0 <= m < n ==> polls[m] == longer[m],
    ensures
        calls_in(keys, polls, n) == calls_in(keys, longer, n),
    decreases n,
{
    if n > 0 {
        lemma_calls_of_prefix(keys, polls, longer, (n - 1) as nat);
    }
}

/// A power switch asks for shutdown exactly when its line reads Enabled;
/// one reading is enough.
pub open spec fn trips(reading: Result<GpioValue, GpioError>) -> bool {
    reading == Ok::<GpioValue, GpioError>(GpioValue::Enabled)
}

/// Some power switch of `polls` asks for shutdown.
pub open spec fn any_trips(polls: Seq<SwitchPoll>) -> bool {
    exists|j: int| 0 <= j < polls.len() && (#[trigger] polls[j]).shutdown
}

/// Whether a power switch that gave `reading` asks for shutdown.
pub fn power_switch_trips(reading: &Result<GpioValue, GpioError>) -> (shutdown: bool)
    ensures
        shutdown == trips(*reading),
{
    match reading {
        Ok(GpioValue::Enabled) => true,
        Ok(GpioValue::Disabled) => false,
        Err(_) => false,
    }
}

/// Raise the shared exit flag.
fn raise(exit: &Arc<AtomicBool>) {
    exit.store(true, std::sync::atomic::Ordering::SeqCst);
}

/// Whether the shared exit flag is raised.
///
/// The flag is shared with other threads, which may raise it at any moment:
/// nothing is promised of the answer.
fn raised(exit: &Arc<AtomicBool>) -> bool {
    exit.load(std::sync::atomic::Ordering::SeqCst)
}

/// The input listener: it polls the lines of its keys and power switches and
/// emits key events through its keyboard.
pub struct InputListener<K: Keyboard, G: Gpio> {
    pub exit: Arc<AtomicBool>,
    pub keyboard: K,
    pub keys: Vec<KeyState<G>>,
    pub power_switches: Vec<PowerSwitch<G>>,
    pub poll_interval: u64,
    /// Set once a power switch of this listener has asked for shutdown.
    pub stopping: bool,
}

impl<K: Keyboard, G: Gpio> InputListener<K, G> {
    /// Create a new input listener with the given configuration: every key
    /// starts Idle, and no shutdown has been asked for.
    pub fn new(config: InputListenerConfig<K, G>) -> (listener: Self)
        ensures
            listener.exit == config.exit,
            listener.keyboard == config.keyboard,
            listener.power_switches == config.power_switches,
            listener.poll_interval == config.poll_interval,
            !listener.stopping,
            listener.keys@.len() == config.keys@.len(),
            forall|i: int|
                0 <= i < config.keys@.len() ==> #[trigger] listener.keys@[i] == initial_key(
                    config.keys@[i],
                ),
    {
        let ghost configured = config.keys@;
        let mut keys: Vec<KeyState<G>> = Vec::new();
        for key_config in it: config.keys.into_iter()
            invariant
                it.seq() == configured,
                keys@.len() == it.index(),
                forall|i: int| 0 <= i < keys@.len() ==> #[trigger] keys@[i] == initial_key(configured[i]),
        {
            keys.push(KeyState::new(key_config));
        }
        InputListener {
            exit: config.exit,
            keyboard: config.keyboard,
            keys,
            power_switches: config.power_switches,
            poll_interval: config.poll_interval,
            stopping: false,
        }
    }

    /// Whether polling goes on, given whether a power switch of the listener
    /// has asked for shutdown and whether the shared exit flag was found
    /// raised: either one stops it.
    pub fn goes_on(stopping: bool, exit_raised: bool) -> (running: bool)
        ensures
            running == (!stopping && !exit_raised),
    {
        !stopping && !exit_raised
    }

    /// Whether polling goes on: it stops for good once a power switch of
    /// this listener has asked for shutdown, and whenever the shared exit
    /// flag is found raised.
    pub fn is_running(&self) -> (running: bool)
        ensures
            self.stopping ==> !running,
    {
        Self::goes_on(self.stopping, raised(&self.exit))
    }

    /// Emit `event` for `keycode`: key down for Press, key up for Release,
    /// key repeat for Repeat, and nothing for no event. Returns what the
    /// keyboard answered, if it was called.
    fn emit(keyboard: &mut K, keycode: evdev::KeyCode, event: OutEvent) -> (sent: Option<
        Result<(), KeyboardError>,
    >)
        ensures
            sent is Some <==> event != OutEvent::Nothing,
            final(keyboard).asked() == old(keyboard).asked() + calls_of(event, keycode),
    {
        match event {
            OutEvent::Nothing => None,
            OutEvent::Press => Some(keyboard.key_down(keycode)),
            OutEvent::Release => Some(keyboard.key_up(keycode)),
            OutEvent::Repeat => Some(keyboard.key_repeat(keycode)),
        }
    }

    /// Handle polling of a single key at time `now`.
    ///
    /// The line is read once. A reading is fed to the key's state machine
    /// and the event that comes out is translated into exactly one keyboard
    /// call with the key's code: key down for Press, key up for Release,
    /// key repeat for Repeat, and no call for no event. A failed read leaves
    /// the key as it is and calls nothing. A keyboard failure is reported
    /// and does not undo the transition.
    pub fn handle_key_poll(key: &mut KeyState<G>, keyboard: &mut K, now: u64) -> (poll: KeyPoll)
        ensures
            (final(key)@.phase, poll.event) == fed(old(key)@, poll.reading, now as nat),
            final(key)@.timing == old(key)@.timing,
            final(key).keycode == old(key).keycode,
            poll.failure is Some ==> poll.event != OutEvent::Nothing,
            final(keyboard).asked() == old(keyboard).asked() + calls_of(
                poll.event,
                evdev_key(old(key).keycode.raw()),
            ),
    {
        let reading = key.gpio.read();
        match reading {
            Ok(value) => {
                let event = key.handle_gpio_value(value, now);
                let failure = match Self::emit(keyboard, key.keycode.keycode(), event) {
                    Some(Err(error)) => Some(error),
                    _ => None,
                };
                KeyPoll { reading: Ok(value), event, failure }
            },
            Err(error) => {
                assert(keyboard.asked() + calls_of(
                    OutEvent::Nothing,
                    evdev_key(key.keycode.raw()),
                ) =~= keyboard.asked());
                KeyPoll { reading: Err(error), event: OutEvent::Nothing, failure: None }
            },
        }
    }

    /// Handle polling of a single power switch.
    ///
    /// The line is read once. A failed read is reported and asks for
    /// nothing. A line that reads Enabled asks for shutdown, and the shared
    /// exit flag is raised at once.
    pub fn handle_power_switch_poll(switch: &mut PowerSwitch<G>, exit: &Arc<AtomicBool>) -> (poll:
        SwitchPoll)
        ensures
            poll.shutdown == trips(poll.reading),
    {
        let reading = switch.gpio.read();
        let shutdown = power_switch_trips(&reading);
        if shutdown {
            raise(exit);
        }
        SwitchPoll { reading, shutdown }
    }

    /// One pass at time `now`: every key in configuration order, then every
    /// power switch in configuration order.
    ///
    /// Each key is left as its own poll leaves it, the keyboard has been
    /// asked for the calls of the keys' events, key by key in configuration
    /// order, and the listener stops for good when a power switch asks for
    /// shutdown.
    pub fn tick(&mut self, now: u64) -> (report: TickReport)
        ensures
            final(self).keys@.len() == old(self).keys@.len(),
            report.keys@.len() == old(self).keys@.len(),
            forall|i: int|
                0 <= i < old(self).keys@.len() ==> {
                    &&& (final(self).keys@[i]@.phase, (#[trigger] report.keys@[i]).event) == fed(
                        old(self).keys@[i]@,
                        report.keys@[i].reading,
                        now as nat,
                    )
                    &&& final(self).keys@[i]@.timing == old(self).keys@[i]@.timing
                    &&& final(self).keys@[i].keycode == old(self).keys@[i].keycode
                    &&& report.keys@[i].failure is Some ==> report.keys@[i].event != OutEvent::Nothing
                },
            final(self).keyboard.asked() == old(self).keyboard.asked() + calls_in(
                old(self).keys@,
                report.keys@,
                report.keys@.len(),
            ),
            final(self).power_switches@.len() == old(self).power_switches@.len(),
            report.power_switches@.len() == old(self).power_switches@.len(),
            forall|j: int|
                0 <= j < report.power_switches@.len() ==> (#[trigger] report.power_switches@[j]).shutdown
                    == trips(report.power_switches@[j].reading),
            final(self).stopping == (old(self).stopping || any_trips(report.power_switches@)),
            final(self).poll_interval == old(self).poll_interval,
            final(self).exit == old(self).exit,
    {
        let mut key_polls: Vec<KeyPoll> = Vec::new();
        let mut i: usize = 0;
        while i < self.keys.len()
            invariant
                i <= self.keys@.len(),
                self.keys@.len() == old(self).keys@.len(),
                key_polls@.len() == i,
                self.power_switches == old(self).power_switches,
                self.stopping == old(self).stopping,
                self.poll_interval == old(self).poll_interval,
                self.exit == old(self).exit,
                self.keyboard.asked() == old(self).keyboard.asked() + calls_in(
                    old(self).keys@,
                    key_polls@,
                    i as nat,
                ),
                forall|m: int| i <= m < self.keys@.len() ==> self.keys@[m] == old(self).keys@[m],
                forall|m: int|
                    0 <= m < i ==> {
                        &&& (self.keys@[m]@.phase, (#[trigger] key_polls@[m]).event) == fed(
                            old(self).keys@[m]@,
                            key_polls@[m].reading,
                            now as nat,
                        )
                        &&& self.keys@[m]@.timing == old(self).keys@[m]@.timing
                        &&& self.keys@[m].keycode == old(self).keys@[m].keycode
                        &&& key_polls@[m].failure is Some ==> key_polls@[m].event != OutEvent::Nothing
                    },
            decreases self.keys@.len() - i,
        {
            let ghost before = key_polls@;
            let poll = Self::handle_key_poll(&mut self.keys[i], &mut self.keyboard, now);
            key_polls.push(poll);
            proof {
                lemma_calls_of_prefix(old(self).keys@, before, key_polls@, i as nat);
                assert(self.keyboard.asked() =~= old(self).keyboard.asked() + calls_in(
                    old(self).keys@,
                    key_polls@,
                    (i + 1) as nat,
                ));
            }
            i = i + 1;
        }
        let ghost polled = self.keys@;
        let ghost asked = self.keyboard.asked();
        let mut switch_polls: Vec<SwitchPoll> = Vec::new();
        let mut stop: bool = false;
        let mut j: usize = 0;
        while j < self.power_switches.len()
            invariant
                j <= self.power_switches@.len(),
                self.keys@ == polled,
                self.keyboard.asked() == asked,
                self.stopping == old(self).stopping,
                self.poll_interval == old(self).poll_interval,
                self.exit == old(self).exit,
                self.power_switches@.len() == old(self).power_switches@.len(),
                switch_polls@.len() == j,
                stop == any_trips(switch_polls@),
                forall|m: int|
                    0 <= m < j ==> (#[trigger] switch_polls@[m]).shutdown == trips(
                        switch_polls@[m].reading,
                    ),
            decreases self.power_switches@.len() - j,
        {
            let poll = Self::handle_power_switch_poll(&mut self.power_switches[j], &self.exit);
            let ghost before = switch_polls@;
            if poll.shutdown {
                stop = true;
            }
            switch_polls.push(poll);
            proof {
                assert(switch_polls@[j as int] == poll);
                assert(any_trips(before) ==> any_trips(switch_polls@)) by {
                    if any_trips(before) {
                        let w = choose|w: int| 0 <= w < before.len() && (#[trigger] before[w]).shutdown;
                        assert(switch_polls@[w] == before[w]);
                    }
                }
                assert(any_trips(switch_polls@) ==> poll.shutdown || any_trips(before)) by {
                    if any_trips(switch_polls@) {
                        let w = choose|w: int|
                            0 <= w < switch_polls@.len() && (#[trigger] switch_polls@[w]).shutdown;
                        if w < j {
                            assert(before[w] == switch_polls@[w]);
                        }
                    }
                }
            }
            j = j + 1;
        }
        if stop {
            self.stopping = true;
        }
        TickReport { keys: key_polls, power_switches: switch_polls }
    }
}

} // verus!
