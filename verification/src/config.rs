//! Key bindings as they are configured, and what a listener is built from.
//!
//! A configuration counts time in milliseconds; the listener counts it in
//! nanoseconds.

pub mod keycode;

use vstd::prelude::*;
use vstd::string::StringExecFns;

pub use self::keycode::Keycode;
use crate::config::keycode::evdev_key_name;
use crate::input_listener::config::RepeatConfig;
use crate::text::{
    decimal, decimal_text, optional_truth, optional_truth_text, texts, truth, truth_text,
};

verus! {

/// The wait before the first repeat where a repeating key sets none: 500 ms.
pub const DEFAULT_REPEAT_DELAY: u64 = 500_000_000;

/// The interval between repeats where a repeating key sets none: 100 ms.
pub const DEFAULT_REPEAT_RATE: u64 = 100_000_000;

/// The number of nanoseconds in a millisecond.
pub const NANOS_PER_MILLI: u64 = 1_000_000;

/// One key as configured: its line, its keycode and what it overrides of the
/// defaults.
#[derive(Debug)]
pub struct KeyBinding {
    pub gpio: u32,
    pub keycode: Keycode,
    pub debounce_ms: Option<u64>,
    pub active_low: Option<bool>,
    pub repeat: bool,
    pub repeat_delay_ms: Option<u64>,
    pub repeat_rate_ms: Option<u64>,
}

/// One power switch as configured.
#[derive(Debug)]
pub struct PowerSwitchBinding {
    pub gpio: u32,
    pub active_low: bool,
}

/// The configuration of the whole program.
#[derive(Debug)]
pub struct Config {
    pub default_debounce_ms: u64,
    pub default_active_low: bool,
    pub poll_interval_ms: u64,
    pub keys: Vec<KeyBinding>,
    pub power_switches: Vec<PowerSwitchBinding>,
}

/// What the line and the state machine of one key are set up with, every
/// default resolved.
#[derive(Debug)]
pub struct KeyPlan {
    pub gpio: u32,
    pub active_low: bool,
    pub keycode: Keycode,
    pub debounce: u64,
    pub repeat: Option<RepeatConfig>,
}

/// A number of milliseconds in nanoseconds, capped at the largest `u64`.
pub open spec fn nanos_of_millis(millis: u64) -> u64 {
    if millis * NANOS_PER_MILLI <= u64::MAX {
        (millis * NANOS_PER_MILLI) as u64
    } else {
        u64::MAX
    }
}

/// An optional number of milliseconds in nanoseconds.
pub open spec fn nanos_of_optional_millis(millis: Option<u64>) -> Option<u64> {
    match millis {
        Some(millis) => Some(nanos_of_millis(millis)),
        None => None,
    }
}

/// Convert milliseconds to nanoseconds, capped at the largest `u64`.
pub fn millis_to_nanos(millis: u64) -> (nanos: u64)
    ensures
        nanos == nanos_of_millis(millis),
{
    if millis > u64::MAX / NANOS_PER_MILLI {
        u64::MAX
    } else {
        millis * NANOS_PER_MILLI
    }
}

fn optional_millis_to_nanos(millis: Option<u64>) -> (nanos: Option<u64>)
    ensures
        nanos == nanos_of_optional_millis(millis),
{
    match millis {
        Some(millis) => Some(millis_to_nanos(millis)),
        None => None,
    }
}

/// The setup of a key under the given defaults: its own polarity and
/// debounce where it sets them, the defaults where it does not; a repeat
/// policy only if it repeats, with the default delay and rate where it sets
/// none.
pub open spec fn plan_of(key: KeyBinding, default_active_low: bool, default_debounce_ms: u64) -> KeyPlan {
    KeyPlan {
        gpio: key.gpio,
        active_low: match key.active_low {
            Some(active_low) => active_low,
            None => default_active_low,
        },
        keycode: key.keycode,
        debounce: match key.debounce_ms {
            Some(millis) => nanos_of_millis(millis),
            None => nanos_of_millis(default_debounce_ms),
        },
        repeat: if key.repeat {
            Some(
                RepeatConfig {
                    delay: match key.repeat_delay_ms {
                        Some(millis) => nanos_of_millis(millis),
                        None => DEFAULT_REPEAT_DELAY,
                    },
                    rate: match key.repeat_rate_ms {
                        Some(millis) => nanos_of_millis(millis),
                        None => DEFAULT_REPEAT_RATE,
                    },
                },
            )
        } else {
            None
        },
    }
}

impl KeyBinding {
    /// The debounce duration that the key sets, in nanoseconds.
    pub fn debounce(&self) -> (nanos: Option<u64>)
        ensures
            nanos == nanos_of_optional_millis(self.debounce_ms),
    {
        optional_millis_to_nanos(self.debounce_ms)
    }

    /// The repeat delay that the key sets, in nanoseconds.
    pub fn repeat_delay(&self) -> (nanos: Option<u64>)
        ensures
            nanos == nanos_of_optional_millis(self.repeat_delay_ms),
    {
        optional_millis_to_nanos(self.repeat_delay_ms)
    }

    /// The repeat rate that the key sets, in nanoseconds.
    pub fn repeat_rate(&self) -> (nanos: Option<u64>)
        ensures
            nanos == nanos_of_optional_millis(self.repeat_rate_ms),
    {
        optional_millis_to_nanos(self.repeat_rate_ms)
    }
}

impl Config {
    /// The default debounce duration, in nanoseconds.
    pub fn default_debounce(&self) -> (nanos: u64)
        ensures
            nanos == nanos_of_millis(self.default_debounce_ms),
    {
        millis_to_nanos(self.default_debounce_ms)
    }

    /// The interval between two polling passes, in nanoseconds.
    pub fn poll_interval(&self) -> (nanos: u64)
        ensures
            nanos == nanos_of_millis(self.poll_interval_ms),
    {
        millis_to_nanos(self.poll_interval_ms)
    }

    /// The keycode of every key, in configuration order.
    pub fn keycodes(&self) -> (keycodes: Vec<Keycode>)
        ensures
            keycodes@.len() == self.keys@.len(),
            forall|i: int| 0 <= i < self.keys@.len() ==> #[trigger] keycodes@[i] == self.keys@[i].keycode,
    {
        let mut keycodes: Vec<Keycode> = Vec::new();
        let mut i: usize = 0;
        while i < self.keys.len()
            invariant
                i <= self.keys@.len(),
                keycodes@.len() == i,
                forall|m: int| 0 <= m < i ==> #[trigger] keycodes@[m] == self.keys@[m].keycode,
            decreases self.keys@.len() - i,
        {
            keycodes.push(self.keys[i].keycode);
            i = i + 1;
        }
        keycodes
    }

    /// The setup of one key under the defaults of this configuration.
    pub fn key_plan(&self, key: &KeyBinding) -> (plan: KeyPlan)
        ensures
            plan == plan_of(*key, self.default_active_low, self.default_debounce_ms),
    {
        let active_low = match key.active_low {
            Some(active_low) => active_low,
            None => self.default_active_low,
        };
        let debounce = match key.debounce() {
            Some(nanos) => nanos,
            None => self.default_debounce(),
        };
        let repeat = if key.repeat {
            let delay = match key.repeat_delay() {
                Some(nanos) => nanos,
                None => DEFAULT_REPEAT_DELAY,
            };
            let rate = match key.repeat_rate() {
                Some(nanos) => nanos,
                None => DEFAULT_REPEAT_RATE,
            };
            Some(RepeatConfig { delay, rate })
        } else {
            None
        };
        KeyPlan { gpio: key.gpio, active_low, keycode: key.keycode, debounce, repeat }
    }

    /// The setup of every key, in configuration order.
    pub fn key_plans(&self) -> (plans: Vec<KeyPlan>)
        ensures
            plans@.len() == self.keys@.len(),
            forall|i: int|
                0 <= i < self.keys@.len() ==> #[trigger] plans@[i] == plan_of(
                    self.keys@[i],
                    self.default_active_low,
                    self.default_debounce_ms,
                ),
    {
        let mut plans: Vec<KeyPlan> = Vec::new();
        let mut i: usize = 0;
        while i < self.keys.len()
            invariant
                i <= self.keys@.len(),
                plans@.len() == i,
                forall|m: int|
                    0 <= m < i ==> #[trigger] plans@[m] == plan_of(
                        self.keys@[m],
                        self.default_active_low,
                        self.default_debounce_ms,
                    ),
            decreases self.keys@.len() - i,
        {
            plans.push(self.key_plan(&self.keys[i]));
            i = i + 1;
        }
        plans
    }
}

/// The lines that report one key.
pub open spec fn key_lines(key: KeyBinding) -> Seq<Seq<char>> {
    seq!["    GPIO: "@ + decimal(key.gpio as nat), "    Keycode: "@ + evdev_key_name(key.keycode.raw())]
        + (match key.debounce_ms {
        Some(millis) => seq!["    Debounce (ms): "@ + decimal(millis as nat)],
        None => Seq::<Seq<char>>::empty(),
    }) + seq![
        "    Active Low: "@ + optional_truth(key.active_low),
        "    Repeat: "@ + truth(key.repeat),
    ] + (match key.repeat_delay_ms {
        Some(millis) => seq!["    Repeat Delay (ms): "@ + decimal(millis as nat)],
        None => Seq::<Seq<char>>::empty(),
    }) + (match key.repeat_rate_ms {
        Some(millis) => seq!["    Repeat Rate (ms): "@ + decimal(millis as nat)],
        None => Seq::<Seq<char>>::empty(),
    })
}

/// The lines that report the first `n` keys, in order.
pub open spec fn keys_lines(keys: Seq<KeyBinding>, n: nat) -> Seq<Seq<char>>
    decreases n,
{
    if n == 0 {
        Seq::<Seq<char>>::empty()
    } else {
        keys_lines(keys, (n - 1) as nat) + key_lines(keys[n - 1])
    }
}

/// The lines that report one power switch.
pub open spec fn switch_lines(switch: PowerSwitchBinding) -> Seq<Seq<char>> {
    seq!["    GPIO "@ + decimal(switch.gpio as nat), "    Active Low: "@ + truth(switch.active_low)]
}

/// The lines that report the first `n` power switches, in order.
pub open spec fn switches_lines(switches: Seq<PowerSwitchBinding>, n: nat) -> Seq<Seq<char>>
    decreases n,
{
    if n == 0 {
        Seq::<Seq<char>>::empty()
    } else {
        switches_lines(switches, (n - 1) as nat) + switch_lines(switches[n - 1])
    }
}

/// The lines that open the report: the defaults and the poll interval, in
/// milliseconds.
pub open spec fn heading_lines(config: Config) -> Seq<Seq<char>> {
    seq![
        "Configuration:"@,
        "  Default debounce: "@ + decimal(config.default_debounce_ms as nat),
        "  Default active_low: "@ + truth(config.default_active_low),
        "  Poll interval: "@ + decimal(config.poll_interval_ms as nat),
        "  Keys:"@,
    ]
}

/// The report of a configuration, line by line: the heading, every key,
/// then every power switch.
pub open spec fn config_lines(config: Config) -> Seq<Seq<char>> {
    heading_lines(config) + keys_lines(config.keys@, config.keys@.len()) + seq![
        "  Power Switches:"@,
    ] + switches_lines(config.power_switches@, config.power_switches@.len())
}

/// Append the line made of `label` and `value`.
fn push_line(lines: &mut Vec<String>, label: &str, value: &str)
    ensures
        texts(final(lines)@) == texts(old(lines)@).push(label@ + value@),
{
    lines.push(String::from_str(label).concat(value));
    assert(texts(lines@) =~= texts(old(lines)@).push(label@ + value@));
}

/// Append the lines that report one key.
fn push_key_lines(lines: &mut Vec<String>, key: &KeyBinding)
    ensures
        texts(final(lines)@) == texts(old(lines)@) + key_lines(*key),
{
    push_line(lines, "    GPIO: ", decimal_text(key.gpio as u64).as_str());
    push_line(lines, "    Keycode: ", key.keycode.to_string().as_str());
    match key.debounce_ms {
        Some(millis) => push_line(lines, "    Debounce (ms): ", decimal_text(millis).as_str()),
        None => {},
    }
    push_line(lines, "    Active Low: ", optional_truth_text(key.active_low));
    push_line(lines, "    Repeat: ", truth_text(key.repeat));
    match key.repeat_delay_ms {
        Some(millis) => push_line(lines, "    Repeat Delay (ms): ", decimal_text(millis).as_str()),
        None => {},
    }
    match key.repeat_rate_ms {
        Some(millis) => push_line(lines, "    Repeat Rate (ms): ", decimal_text(millis).as_str()),
        None => {},
    }
    assert(texts(lines@) =~= texts(old(lines)@) + key_lines(*key));
}

/// Append the lines that report one power switch.
fn push_switch_lines(lines: &mut Vec<String>, switch: &PowerSwitchBinding)
    ensures
        texts(final(lines)@) == texts(old(lines)@) + switch_lines(*switch),
{
    push_line(lines, "    GPIO ", decimal_text(switch.gpio as u64).as_str());
    push_line(lines, "    Active Low: ", truth_text(switch.active_low));
    assert(texts(lines@) =~= texts(old(lines)@) + switch_lines(*switch));
}

/// Report a configuration as lines of text, ready to be logged: the
/// defaults and the poll interval, then every key and every power switch in
/// configuration order. Durations are reported in milliseconds, as they are
/// configured.
pub fn log_config(config: &Config) -> (lines: Vec<String>)
    ensures
        texts(lines@) == config_lines(*config),
{
    let mut lines: Vec<String> = Vec::new();
    push_line(&mut lines, "Configuration:", "");
    push_line(&mut lines, "  Default debounce: ", decimal_text(config.default_debounce_ms).as_str());
    push_line(&mut lines, "  Default active_low: ", truth_text(config.default_active_low));
    push_line(&mut lines, "  Poll interval: ", decimal_text(config.poll_interval_ms).as_str());
    push_line(&mut lines, "  Keys:", "");
    proof {
        reveal_strlit("");
        assert("Configuration:"@ + ""@ =~= "Configuration:"@);
        assert("  Keys:"@ + ""@ =~= "  Keys:"@);
        assert(texts(lines@) =~= heading_lines(*config));
    }
    let mut i: usize = 0;
    while i < config.keys.len()
        invariant
            i <= config.keys@.len(),
            texts(lines@) == heading_lines(*config) + keys_lines(config.keys@, i as nat),
        decreases config.keys@.len() - i,
    {
        push_key_lines(&mut lines, &config.keys[i]);
        i = i + 1;
        assert(texts(lines@) =~= heading_lines(*config) + keys_lines(config.keys@, i as nat));
    }
    push_line(&mut lines, "  Power Switches:", "");
    proof {
        assert("  Power Switches:"@ + ""@ =~= "  Power Switches:"@);
    }
    let ghost before = texts(lines@);
    let mut j: usize = 0;
    while j < config.power_switches.len()
        invariant
            j <= config.power_switches@.len(),
            texts(lines@) == before + switches_lines(config.power_switches@, j as nat),
        decreases config.power_switches@.len() - j,
    {
        push_switch_lines(&mut lines, &config.power_switches[j]);
        j = j + 1;
        assert(texts(lines@) =~= before + switches_lines(config.power_switches@, j as nat));
    }
    assert(texts(lines@) =~= config_lines(*config));
    lines
}

} // verus!
