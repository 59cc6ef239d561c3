use std::sync::atomic::{AtomicBool, Ordering};
use std::sync::Arc;

use evdev::KeyCode;
use gpio2key::config::keycode::Keycode;
use gpio2key::gpio::{Gpio, GpioError, GpioValue};
use gpio2key::input_listener::config::{
    InputListenerConfig, KeyConfig, PowerSwitch, RepeatConfig,
};
use gpio2key::input_listener::model::OutEvent;
use gpio2key::input_listener::state::{KeyHold, KeyPhase, KeyState};
use gpio2key::input_listener::{power_switch_trips, InputListener};
use gpio2key::keyboard::mock::MockKeyboard;
use gpio2key::keyboard::{Keyboard, KeyboardError, KEY_DOWN, KEY_REPEAT, KEY_UP};

const MS: u64 = 1_000_000;

/// A line that gives the readings of a script, one per read, and its last
/// reading for ever after. `None` in the script is a failed read.
struct ScriptedLine {
    script: Vec<Option<GpioValue>>,
    reads: usize,
}

impl ScriptedLine {
    fn new(script: &[Option<GpioValue>]) -> Self {
        ScriptedLine { script: script.to_vec(), reads: 0 }
    }

    fn steady(value: GpioValue) -> Self {
        ScriptedLine::new(&[Some(value)])
    }
}

impl Gpio for ScriptedLine {
    fn read(&mut self) -> Result<GpioValue, GpioError> {
        let at = self.reads.min(self.script.len() - 1);
        self.reads += 1;
        match self.script[at] {
            Some(value) => Ok(value),
            None => Err(GpioError { message: format!("read {} failed", self.reads) }),
        }
    }
}

/// A keyboard that refuses every event, and counts and records what it was
/// asked for.
struct BrokenKeyboard {
    calls: usize,
    asked: Vec<(KeyCode, i32)>,
}

impl BrokenKeyboard {
    fn new() -> Self {
        BrokenKeyboard { calls: 0, asked: Vec::new() }
    }
}

impl Keyboard for BrokenKeyboard {
    fn key_up(&mut self, keycode: KeyCode) -> Result<(), KeyboardError> {
        self.calls += 1;
        self.asked.push((keycode, KEY_UP));
        Err(KeyboardError { message: "up refused".to_string() })
    }

    fn key_down(&mut self, keycode: KeyCode) -> Result<(), KeyboardError> {
        self.calls += 1;
        self.asked.push((keycode, KEY_DOWN));
        Err(KeyboardError { message: "down refused".to_string() })
    }

    fn key_repeat(&mut self, keycode: KeyCode) -> Result<(), KeyboardError> {
        self.calls += 1;
        self.asked.push((keycode, KEY_REPEAT));
        Err(KeyboardError { message: "repeat refused".to_string() })
    }
}

use GpioValue::{Disabled, Enabled};

fn key_config(
    name: &str,
    script: &[Option<GpioValue>],
    debounce_ms: u64,
    repeat: Option<(u64, u64)>,
) -> KeyConfig<ScriptedLine> {
    KeyConfig {
        gpio: ScriptedLine::new(script),
        keycode: Keycode::from_str(name).unwrap(),
        debounce: debounce_ms * MS,
        repeat: repeat.map(|(delay, rate)| RepeatConfig { delay: delay * MS, rate: rate * MS }),
    }
}

fn listener(
    keys: Vec<KeyConfig<ScriptedLine>>,
    switches: Vec<ScriptedLine>,
) -> InputListener<MockKeyboard, ScriptedLine> {
    InputListener::new(InputListenerConfig {
        exit: Arc::new(AtomicBool::new(false)),
        keyboard: MockKeyboard::default(),
        keys,
        power_switches: switches.into_iter().map(|gpio| PowerSwitch { gpio }).collect(),
        poll_interval: 10 * MS,
    })
}

#[test]
fn new_listener_holds_its_configuration() {
    let exit = Arc::new(AtomicBool::new(false));
    let listener = InputListener::new(InputListenerConfig {
        exit: exit.clone(),
        keyboard: MockKeyboard::default(),
        keys: vec![
            key_config("A", &[Some(Disabled)], 50, None),
            key_config("B", &[Some(Disabled)], 20, Some((500, 100))),
        ],
        power_switches: vec![PowerSwitch { gpio: ScriptedLine::steady(Disabled) }],
        poll_interval: 7 * MS,
    });
    assert!(Arc::ptr_eq(&listener.exit, &exit));
    assert_eq!(listener.poll_interval, 7 * MS);
    assert!(!listener.stopping);
    assert!(listener.is_running());
    assert!(listener.keyboard.events.is_empty());
    assert_eq!(listener.power_switches.len(), 1);
    assert_eq!(listener.keys.len(), 2);
    assert_eq!(listener.keys[0].keycode.keycode(), KeyCode::KEY_A);
    assert_eq!(listener.keys[0].debounce, 50 * MS);
    assert_eq!(listener.keys[0].repeat, None);
    assert_eq!(listener.keys[0].phase, KeyPhase::Idle);
    assert_eq!(listener.keys[1].keycode.keycode(), KeyCode::KEY_B);
    assert_eq!(listener.keys[1].debounce, 20 * MS);
    assert_eq!(listener.keys[1].repeat, Some(RepeatConfig { delay: 500 * MS, rate: 100 * MS }));
    assert_eq!(listener.keys[1].phase, KeyPhase::Idle);
}

#[test]
fn key_poll_translates_events_into_keyboard_calls() {
    let mut key = KeyState::new(key_config("A", &[Some(Enabled), Some(Enabled), Some(Enabled), Some(Disabled)], 0, Some((100, 50))));
    let mut keyboard = MockKeyboard::default();
    let mut events = Vec::new();
    for at in [0, 10, 110, 120, 130] {
        let poll = InputListener::<MockKeyboard, ScriptedLine>::handle_key_poll(
            &mut key,
            &mut keyboard,
            at * MS,
        );
        assert!(poll.failure.is_none());
        events.push((poll.reading.unwrap(), poll.event));
    }
    assert_eq!(
        events,
        vec![
            (Enabled, OutEvent::Nothing),
            (Enabled, OutEvent::Press),
            (Enabled, OutEvent::Repeat),
            (Disabled, OutEvent::Nothing),
            (Disabled, OutEvent::Release),
        ]
    );
    assert_eq!(
        keyboard.events,
        vec![(KeyCode::KEY_A, KEY_DOWN), (KeyCode::KEY_A, KEY_REPEAT), (KeyCode::KEY_A, KEY_UP)]
    );
}

#[test]
fn failed_read_keeps_the_state_and_emits_nothing() {
    let mut key = KeyState::new(key_config("A", &[Some(Enabled), None, None, Some(Enabled)], 50, None));
    let mut keyboard = MockKeyboard::default();
    let poll = InputListener::<MockKeyboard, ScriptedLine>::handle_key_poll(&mut key, &mut keyboard, 0);
    assert_eq!(poll.event, OutEvent::Nothing);
    assert_eq!(key.phase, KeyPhase::PendingPress { since: 0 });
    for at in [20, 40] {
        let poll = InputListener::<MockKeyboard, ScriptedLine>::handle_key_poll(
            &mut key,
            &mut keyboard,
            at * MS,
        );
        assert_eq!(poll.reading.unwrap_err().message, format!("read {} failed", at / 20 + 1));
        assert_eq!(poll.event, OutEvent::Nothing);
        assert!(poll.failure.is_none());
        assert_eq!(key.phase, KeyPhase::PendingPress { since: 0 });
    }
    let poll = InputListener::<MockKeyboard, ScriptedLine>::handle_key_poll(&mut key, &mut keyboard, 60 * MS);
    assert_eq!(poll.event, OutEvent::Press);
    assert_eq!(keyboard.events, vec![(KeyCode::KEY_A, KEY_DOWN)]);
}

#[test]
fn keyboard_failure_does_not_undo_the_transition() {
    let mut key = KeyState::new(key_config("A", &[Some(Enabled), Some(Enabled), Some(Disabled)], 0, None));
    let mut keyboard = BrokenKeyboard::new();
    let poll = InputListener::<BrokenKeyboard, ScriptedLine>::handle_key_poll(&mut key, &mut keyboard, 0);
    assert_eq!(poll.event, OutEvent::Nothing);
    assert!(poll.failure.is_none());
    assert_eq!(keyboard.calls, 0);
    let poll = InputListener::<BrokenKeyboard, ScriptedLine>::handle_key_poll(&mut key, &mut keyboard, MS);
    assert_eq!(poll.event, OutEvent::Press);
    assert_eq!(poll.failure.unwrap().message, "down refused");
    assert_eq!(keyboard.calls, 1);
    assert_eq!(key.phase, KeyPhase::Held(KeyHold::Active));
    let poll = InputListener::<BrokenKeyboard, ScriptedLine>::handle_key_poll(&mut key, &mut keyboard, 2 * MS);
    assert_eq!(poll.event, OutEvent::Nothing);
    assert_eq!(keyboard.calls, 1);
    let poll = InputListener::<BrokenKeyboard, ScriptedLine>::handle_key_poll(&mut key, &mut keyboard, 3 * MS);
    assert_eq!(poll.event, OutEvent::Release);
    assert_eq!(poll.failure.unwrap().message, "up refused");
    assert_eq!(keyboard.calls, 2);
    assert_eq!(key.phase, KeyPhase::Idle);
    assert_eq!(keyboard.asked, vec![(KeyCode::KEY_A, KEY_DOWN), (KeyCode::KEY_A, KEY_UP)]);
}

#[test]
fn calls_of_one_press_come_as_down_repeats_up() {
    let mut key = KeyState::new(key_config(
        "ENTER",
        &[
            Some(Disabled),
            Some(Enabled),
            Some(Enabled),
            Some(Enabled),
            Some(Enabled),
            Some(Disabled),
            Some(Enabled),
            Some(Enabled),
            Some(Disabled),
            Some(Disabled),
            Some(Disabled),
        ],
        20,
        Some((100, 50)),
    ));
    let mut keyboard = MockKeyboard::default();
    let mut calls_per_poll = Vec::new();
    for at in [0, 10, 30, 130, 150, 160, 170, 180, 190, 200, 210] {
        let before = keyboard.events.len();
        InputListener::<MockKeyboard, ScriptedLine>::handle_key_poll(&mut key, &mut keyboard, at * MS);
        calls_per_poll.push(keyboard.events.len() - before);
    }
    assert_eq!(calls_per_poll, vec![0, 0, 1, 1, 0, 0, 0, 1, 0, 0, 1]);
    assert_eq!(
        keyboard.events,
        vec![
            (KeyCode::KEY_ENTER, KEY_DOWN),
            (KeyCode::KEY_ENTER, KEY_REPEAT),
            (KeyCode::KEY_ENTER, KEY_REPEAT),
            (KeyCode::KEY_ENTER, KEY_UP),
        ]
    );
    assert_eq!(key.phase, KeyPhase::Idle);
}

#[test]
fn isolated_reading_makes_no_keyboard_call() {
    let mut key = KeyState::new(key_config("A", &[Some(Disabled), Some(Enabled), Some(Disabled)], 50, None));
    let mut keyboard = MockKeyboard::default();
    for at in [0, 10, 20, 30, 40] {
        let poll = InputListener::<MockKeyboard, ScriptedLine>::handle_key_poll(
            &mut key,
            &mut keyboard,
            at * MS,
        );
        assert_eq!(poll.event, OutEvent::Nothing);
    }
    assert!(keyboard.events.is_empty());
    assert_eq!(key.phase, KeyPhase::Idle);
}

#[test]
fn key_without_repeat_policy_never_asks_for_a_repeat() {
    let mut key = KeyState::new(key_config("A", &[Some(Enabled)], 10, None));
    let mut keyboard = MockKeyboard::default();
    for tick in 0..300u64 {
        InputListener::<MockKeyboard, ScriptedLine>::handle_key_poll(
            &mut key,
            &mut keyboard,
            tick * 100 * MS,
        );
    }
    assert_eq!(keyboard.events, vec![(KeyCode::KEY_A, KEY_DOWN)]);
}

#[test]
fn power_switch_trips_on_enabled_only() {
    assert!(power_switch_trips(&Ok(Enabled)));
    assert!(!power_switch_trips(&Ok(Disabled)));
    assert!(!power_switch_trips(&Err(GpioError { message: "gone".to_string() })));
}

#[test]
fn power_switch_poll_raises_the_exit_flag() {
    let exit = Arc::new(AtomicBool::new(false));
    let mut switch = PowerSwitch { gpio: ScriptedLine::new(&[Some(Disabled), None, Some(Enabled)]) };
    let poll = InputListener::<MockKeyboard, ScriptedLine>::handle_power_switch_poll(&mut switch, &exit);
    assert_eq!(poll.reading.unwrap(), Disabled);
    assert!(!poll.shutdown);
    assert!(!exit.load(Ordering::SeqCst));
    let poll = InputListener::<MockKeyboard, ScriptedLine>::handle_power_switch_poll(&mut switch, &exit);
    assert!(poll.reading.is_err());
    assert!(!poll.shutdown);
    assert!(!exit.load(Ordering::SeqCst));
    let poll = InputListener::<MockKeyboard, ScriptedLine>::handle_power_switch_poll(&mut switch, &exit);
    assert_eq!(poll.reading.unwrap(), Enabled);
    assert!(poll.shutdown);
    assert!(exit.load(Ordering::SeqCst));
}

#[test]
fn power_switch_scenario() {
    let mut listener = listener(vec![], vec![ScriptedLine::steady(Enabled)]);
    let mut ticks = 0;
    let mut shutdown_requests = 0;
    while listener.is_running() {
        let report = listener.tick(ticks * 10 * MS);
        shutdown_requests += report.power_switches.iter().filter(|poll| poll.shutdown).count();
        ticks += 1;
        assert!(ticks < 100);
    }
    assert_eq!(ticks, 1);
    assert_eq!(shutdown_requests, 1);
    assert!(listener.exit.load(Ordering::SeqCst));
    assert!(listener.stopping);
    assert_eq!(listener.power_switches[0].gpio.reads, 1);
}

#[test]
fn listener_runs_until_the_power_switch_trips() {
    let mut listener = listener(
        vec![key_config("A", &[Some(Disabled)], 50, None)],
        vec![ScriptedLine::new(&[Some(Disabled), None, Some(Disabled), Some(Enabled)])],
    );
    let mut ticks = 0;
    while listener.is_running() {
        let report = listener.tick(ticks * 10 * MS);
        assert_eq!(report.keys.len(), 1);
        assert_eq!(report.power_switches.len(), 1);
        assert_eq!(report.power_switches[0].shutdown, ticks == 3);
        ticks += 1;
        assert!(ticks < 100);
    }
    assert_eq!(ticks, 4);
    assert!(listener.exit.load(Ordering::SeqCst));
}

#[test]
fn stopped_listener_stays_stopped() {
    let mut listener = listener(vec![], vec![ScriptedLine::new(&[Some(Enabled), Some(Disabled)])]);
    listener.tick(0);
    assert!(!listener.is_running());
    listener.exit.store(false, Ordering::SeqCst);
    assert!(!listener.is_running());
    let report = listener.tick(10 * MS);
    assert!(!report.power_switches[0].shutdown);
    assert!(listener.stopping);
    assert!(!listener.is_running());
}

#[test]
fn raised_exit_flag_stops_the_listener() {
    let listener = listener(vec![key_config("A", &[Some(Disabled)], 50, None)], vec![]);
    assert!(listener.is_running());
    listener.exit.store(true, Ordering::SeqCst);
    assert!(!listener.is_running());
    assert!(!listener.stopping);
}

#[test]
fn tick_polls_keys_in_order_then_switches() {
    let mut listener = listener(
        vec![
            key_config("A", &[Some(Enabled)], 0, None),
            key_config("B", &[Some(Disabled)], 0, None),
            key_config("C", &[Some(Enabled)], 0, Some((20, 10))),
        ],
        vec![ScriptedLine::steady(Disabled), ScriptedLine::steady(Disabled)],
    );
    let first = listener.tick(0);
    assert_eq!(first.keys.len(), 3);
    assert_eq!(first.power_switches.len(), 2);
    assert!(first.keys.iter().all(|poll| poll.event == OutEvent::Nothing));
    assert!(listener.keyboard.events.is_empty());
    let second = listener.tick(10 * MS);
    let events: Vec<OutEvent> = second.keys.iter().map(|poll| poll.event).collect();
    assert_eq!(events, vec![OutEvent::Press, OutEvent::Nothing, OutEvent::Press]);
    let third = listener.tick(30 * MS);
    let events: Vec<OutEvent> = third.keys.iter().map(|poll| poll.event).collect();
    assert_eq!(events, vec![OutEvent::Nothing, OutEvent::Nothing, OutEvent::Repeat]);
    assert_eq!(
        listener.keyboard.events,
        vec![(KeyCode::KEY_A, KEY_DOWN), (KeyCode::KEY_C, KEY_DOWN), (KeyCode::KEY_C, KEY_REPEAT)]
    );
    assert!(listener.is_running());
    for key in &listener.keys {
        assert_eq!(key.gpio.reads, 3);
    }
    for switch in &listener.power_switches {
        assert_eq!(switch.gpio.reads, 3);
    }
}

#[test]
fn tick_goes_on_after_failures() {
    let mut listener = listener(
        vec![
            key_config("A", &[None], 0, None),
            key_config("B", &[Some(Enabled)], 0, None),
        ],
        vec![ScriptedLine::new(&[None]), ScriptedLine::steady(Enabled)],
    );
    listener.tick(0);
    let report = listener.tick(MS);
    assert!(report.keys[0].reading.is_err());
    assert_eq!(report.keys[0].event, OutEvent::Nothing);
    assert_eq!(report.keys[1].event, OutEvent::Press);
    assert!(report.power_switches[0].reading.is_err());
    assert!(!report.power_switches[0].shutdown);
    assert!(report.power_switches[1].shutdown);
    assert_eq!(listener.keys[0].phase, KeyPhase::Idle);
    assert_eq!(listener.keyboard.events, vec![(KeyCode::KEY_B, KEY_DOWN)]);
    assert!(!listener.is_running());
}

#[test]
fn every_tripped_switch_is_reported() {
    let mut listener = listener(
        vec![],
        vec![ScriptedLine::steady(Enabled), ScriptedLine::steady(Disabled), ScriptedLine::steady(Enabled)],
    );
    let report = listener.tick(0);
    let tripped: Vec<bool> = report.power_switches.iter().map(|poll| poll.shutdown).collect();
    assert_eq!(tripped, vec![true, false, true]);
    assert!(listener.stopping);
}
