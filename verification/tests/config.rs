use gpio2key::config::keycode::Keycode;
use gpio2key::config::{
    log_config, millis_to_nanos, Config, KeyBinding, PowerSwitchBinding, DEFAULT_REPEAT_DELAY,
    DEFAULT_REPEAT_RATE, NANOS_PER_MILLI,
};
use gpio2key::input_listener::config::RepeatConfig;
use gpio2key::text::{decimal_text, optional_truth_text, truth_text};

fn binding(gpio: u32, name: &str) -> KeyBinding {
    KeyBinding {
        gpio,
        keycode: Keycode::from_str(name).unwrap(),
        debounce_ms: None,
        active_low: None,
        repeat: false,
        repeat_delay_ms: None,
        repeat_rate_ms: None,
    }
}

fn config(keys: Vec<KeyBinding>, power_switches: Vec<PowerSwitchBinding>) -> Config {
    Config {
        default_debounce_ms: 50,
        default_active_low: true,
        poll_interval_ms: 10,
        keys,
        power_switches,
    }
}

#[test]
fn constants() {
    assert_eq!(DEFAULT_REPEAT_DELAY, 500_000_000);
    assert_eq!(DEFAULT_REPEAT_RATE, 100_000_000);
    assert_eq!(NANOS_PER_MILLI, 1_000_000);
}

#[test]
fn milliseconds_become_nanoseconds() {
    assert_eq!(millis_to_nanos(0), 0);
    assert_eq!(millis_to_nanos(1), 1_000_000);
    assert_eq!(millis_to_nanos(50), 50_000_000);
    assert_eq!(millis_to_nanos(18_446_744_073_709), 18_446_744_073_709_000_000);
}

#[test]
fn milliseconds_beyond_the_range_are_capped() {
    assert_eq!(millis_to_nanos(18_446_744_073_710), u64::MAX);
    assert_eq!(millis_to_nanos(u64::MAX), u64::MAX);
}

#[test]
fn durations_are_read_in_nanoseconds() {
    let config = config(vec![], vec![]);
    assert_eq!(config.default_debounce(), 50_000_000);
    assert_eq!(config.poll_interval(), 10_000_000);
    let mut key = binding(4, "A");
    assert_eq!(key.debounce(), None);
    assert_eq!(key.repeat_delay(), None);
    assert_eq!(key.repeat_rate(), None);
    key.debounce_ms = Some(5);
    key.repeat_delay_ms = Some(250);
    key.repeat_rate_ms = Some(u64::MAX);
    assert_eq!(key.debounce(), Some(5_000_000));
    assert_eq!(key.repeat_delay(), Some(250_000_000));
    assert_eq!(key.repeat_rate(), Some(u64::MAX));
}

#[test]
fn key_plan_falls_back_on_the_defaults() {
    let config = config(vec![], vec![]);
    let plan = config.key_plan(&binding(17, "ENTER"));
    assert_eq!(plan.gpio, 17);
    assert!(plan.active_low);
    assert_eq!(plan.keycode, Keycode::from_str("enter").unwrap());
    assert_eq!(plan.debounce, 50_000_000);
    assert_eq!(plan.repeat, None);
}

#[test]
fn key_plan_prefers_what_the_key_sets() {
    let config = config(vec![], vec![]);
    let mut key = binding(3, "UP");
    key.debounce_ms = Some(0);
    key.active_low = Some(false);
    key.repeat = true;
    key.repeat_delay_ms = Some(300);
    key.repeat_rate_ms = Some(40);
    let plan = config.key_plan(&key);
    assert!(!plan.active_low);
    assert_eq!(plan.debounce, 0);
    assert_eq!(plan.repeat, Some(RepeatConfig { delay: 300_000_000, rate: 40_000_000 }));
}

#[test]
fn repeating_key_gets_the_default_cadence() {
    let config = config(vec![], vec![]);
    let mut key = binding(3, "UP");
    key.repeat = true;
    assert_eq!(
        config.key_plan(&key).repeat,
        Some(RepeatConfig { delay: 500_000_000, rate: 100_000_000 })
    );
    key.repeat_rate_ms = Some(20);
    assert_eq!(
        config.key_plan(&key).repeat,
        Some(RepeatConfig { delay: 500_000_000, rate: 20_000_000 })
    );
    key.repeat_rate_ms = None;
    key.repeat_delay_ms = Some(1);
    assert_eq!(
        config.key_plan(&key).repeat,
        Some(RepeatConfig { delay: 1_000_000, rate: 100_000_000 })
    );
}

#[test]
fn cadence_of_a_key_that_does_not_repeat_is_dropped() {
    let config = config(vec![], vec![]);
    let mut key = binding(3, "UP");
    key.repeat_delay_ms = Some(300);
    key.repeat_rate_ms = Some(40);
    assert_eq!(config.key_plan(&key).repeat, None);
}

#[test]
fn key_plans_follow_the_configuration_order() {
    let mut second = binding(8, "B");
    second.repeat = true;
    second.active_low = Some(false);
    let config = config(vec![binding(7, "A"), second, binding(9, "C")], vec![]);
    let plans = config.key_plans();
    assert_eq!(plans.len(), 3);
    let lines: Vec<u32> = plans.iter().map(|plan| plan.gpio).collect();
    assert_eq!(lines, vec![7, 8, 9]);
    let polarity: Vec<bool> = plans.iter().map(|plan| plan.active_low).collect();
    assert_eq!(polarity, vec![true, false, true]);
    assert!(plans[0].repeat.is_none());
    assert!(plans[1].repeat.is_some());
    assert!(config.key_plans().len() == 3);
    assert!(config.key_plans()[2].keycode == Keycode::from_str("c").unwrap());
}

#[test]
fn keycodes_follow_the_configuration_order() {
    let config = config(vec![binding(7, "A"), binding(8, "up"), binding(9, "A")], vec![]);
    let keycodes = config.keycodes();
    assert_eq!(
        keycodes,
        vec![
            Keycode::from_str("A").unwrap(),
            Keycode::from_str("UP").unwrap(),
            Keycode::from_str("A").unwrap()
        ]
    );
    assert!(Config { keys: vec![], ..config }.keycodes().is_empty());
}

#[test]
fn empty_configuration_has_no_plans() {
    assert!(config(vec![], vec![]).key_plans().is_empty());
}

#[test]
fn report_of_an_empty_configuration() {
    let lines = log_config(&config(vec![], vec![]));
    assert_eq!(
        lines,
        vec![
            "Configuration:",
            "  Default debounce: 50",
            "  Default active_low: true",
            "  Poll interval: 10",
            "  Keys:",
            "  Power Switches:",
        ]
    );
}

#[test]
fn report_of_a_full_configuration() {
    let mut second = binding(27, "numpad_5");
    second.debounce_ms = Some(5);
    second.active_low = Some(false);
    second.repeat = true;
    second.repeat_delay_ms = Some(400);
    second.repeat_rate_ms = Some(80);
    let mut third = binding(4294967295, "/");
    third.active_low = Some(true);
    third.repeat_rate_ms = Some(0);
    let config = Config {
        default_debounce_ms: 0,
        default_active_low: false,
        poll_interval_ms: 18446744073709551615,
        keys: vec![binding(17, "a"), second, third],
        power_switches: vec![
            PowerSwitchBinding { gpio: 3, active_low: true },
            PowerSwitchBinding { gpio: 100, active_low: false },
        ],
    };
    let lines = log_config(&config);
    assert_eq!(
        lines,
        vec![
            "Configuration:",
            "  Default debounce: 0",
            "  Default active_low: false",
            "  Poll interval: 18446744073709551615",
            "  Keys:",
            "    GPIO: 17",
            "    Keycode: KEY_A",
            "    Active Low: None",
            "    Repeat: false",
            "    GPIO: 27",
            "    Keycode: KEY_KP5",
            "    Debounce (ms): 5",
            "    Active Low: Some(false)",
            "    Repeat: true",
            "    Repeat Delay (ms): 400",
            "    Repeat Rate (ms): 80",
            "    GPIO: 4294967295",
            "    Keycode: KEY_SLASH",
            "    Active Low: Some(true)",
            "    Repeat: false",
            "    Repeat Rate (ms): 0",
            "  Power Switches:",
            "    GPIO 3",
            "    Active Low: true",
            "    GPIO 100",
            "    Active Low: false",
        ]
    );
}

#[test]
fn numbers_are_written_in_decimal() {
    assert_eq!(decimal_text(0), "0");
    assert_eq!(decimal_text(7), "7");
    assert_eq!(decimal_text(9), "9");
    assert_eq!(decimal_text(10), "10");
    assert_eq!(decimal_text(1234567890), "1234567890");
    assert_eq!(decimal_text(1000000), "1000000");
    assert_eq!(decimal_text(u64::MAX), "18446744073709551615");
    for n in 0..2000u64 {
        assert_eq!(decimal_text(n), format!("{}", n));
    }
}

#[test]
fn truth_values_are_written_as_words() {
    assert_eq!(truth_text(true), "true");
    assert_eq!(truth_text(false), "false");
    assert_eq!(optional_truth_text(Some(true)), "Some(true)");
    assert_eq!(optional_truth_text(Some(false)), "Some(false)");
    assert_eq!(optional_truth_text(None), "None");
    assert_eq!(optional_truth_text(Some(true)), format!("{:?}", Some(true)));
    assert_eq!(optional_truth_text(None), format!("{:?}", None::<bool>));
}
