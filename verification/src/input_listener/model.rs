//! The key state machine as a mathematical transition function.
//!
//! Times and durations are natural numbers counted in one common clock unit.

use vstd::prelude::*;

use crate::gpio::GpioValue;

verus! {

/// The sole output of feeding one reading to a key.
#[derive(Clone, Copy, Debug, PartialEq, Eq, Structural)]
pub enum OutEvent {
    Nothing,
    Press,
    Release,
    Repeat,
}

/// Auto-repeat timing: the wait before the first repeat and the interval
/// between repeats thereafter.
pub struct Cadence {
    pub delay: nat,
    pub rate: nat,
}

/// The timing rules of one key.
pub struct Timing {
    pub debounce: nat,
    pub repeat: Option<Cadence>,
}

/// The confirmed-pressed sub-states.
pub enum Hold {
    /// Pressed, with no repeat scheduled.
    Active,
    /// Pressed, waiting for the initial repeat delay to run out.
    RepeatPending { deadline: nat },
    /// Pressed and repeating; the next repeat is due at `deadline`.
    Repeating { deadline: nat },
}

/// The state of one key.
pub enum Phase {
    /// Released and settled.
    Idle,
    /// The line went active at `since`; the press is not confirmed yet.
    PendingPress { since: nat },
    /// Confirmed pressed.
    Held(Hold),
    /// The line went inactive at `since` while pressed; a bounce returns the
    /// key to `revert`.
    PendingRelease { since: nat, revert: Hold },
}

/// One sample of a line: the value read and the time of the read.
pub struct Reading {
    pub value: GpioValue,
    pub at: nat,
}

/// Time that has passed between `since` and `now`; zero if the clock reads
/// earlier than `since`.
pub open spec fn elapsed(now: nat, since: nat) -> nat {
    if now >= since {
        (now - since) as nat
    } else {
        0
    }
}

/// The pressed sub-state entered when a press is confirmed at `now`.
pub open spec fn confirmed(timing: Timing, now: nat) -> Hold {
    match timing.repeat {
        Some(cadence) => Hold::RepeatPending { deadline: now + cadence.delay },
        None => Hold::Active,
    }
}

/// The time at which a pressed sub-state is next due to repeat, if any.
pub open spec fn hold_deadline(hold: Hold) -> Option<nat> {
    match hold {
        Hold::Active => None,
        Hold::RepeatPending { deadline } => Some(deadline),
        Hold::Repeating { deadline } => Some(deadline),
    }
}

/// The repeat rule: what an Enabled reading at `now` does to a pressed key.
pub open spec fn sustain(timing: Timing, hold: Hold, now: nat) -> (Hold, OutEvent) {
    match (hold_deadline(hold), timing.repeat) {
        (Some(deadline), Some(cadence)) => if now >= deadline {
            (Hold::Repeating { deadline: now + cadence.rate }, OutEvent::Repeat)
        } else {
            (hold, OutEvent::Nothing)
        },
        _ => (hold, OutEvent::Nothing),
    }
}

/// The transition function: the next state and the event emitted when a key
/// in state `phase` sees `value` at time `now`.
pub open spec fn step(timing: Timing, phase: Phase, value: GpioValue, now: nat) -> (Phase, OutEvent) {
    match phase {
        Phase::Idle => match value {
            GpioValue::Enabled => (Phase::PendingPress { since: now }, OutEvent::Nothing),
            GpioValue::Disabled => (Phase::Idle, OutEvent::Nothing),
        },
        Phase::PendingPress { since } => match value {
            GpioValue::Disabled => (Phase::Idle, OutEvent::Nothing),
            GpioValue::Enabled => if elapsed(now, since) < timing.debounce {
                (phase, OutEvent::Nothing)
            } else {
                (Phase::Held(confirmed(timing, now)), OutEvent::Press)
            },
        },
        Phase::Held(hold) => match value {
            GpioValue::Disabled => (Phase::PendingRelease { since: now, revert: hold }, OutEvent::Nothing),
            GpioValue::Enabled => {
                let (next, event) = sustain(timing, hold, now);
                (Phase::Held(next), event)
            },
        },
        Phase::PendingRelease { since, revert } => match value {
            GpioValue::Enabled => (Phase::Held(revert), OutEvent::Nothing),
            GpioValue::Disabled => if elapsed(now, since) < timing.debounce {
                (phase, OutEvent::Nothing)
            } else {
                (Phase::Idle, OutEvent::Release)
            },
        },
    }
}

} // verus!

verus! {

/// The state of a key that starts in `start` and is fed the first `n` of
/// `readings`, in order.
pub open spec fn phase_after(timing: Timing, start: Phase, readings: Seq<Reading>, n: nat) -> Phase
    decreases n,
{
    if n == 0 {
        start
    } else {
        let before = phase_after(timing, start, readings, (n - 1) as nat);
        step(timing, before, readings[n - 1].value, readings[n - 1].at).0
    }
}

/// The event that reading `i` of `readings` produces for a key that starts
/// in `start`.
pub open spec fn event_at(timing: Timing, start: Phase, readings: Seq<Reading>, i: int) -> OutEvent {
    step(timing, phase_after(timing, start, readings, i as nat), readings[i].value, readings[i].at).1
}

/// The readings were taken in order of time.
pub open spec fn chronological(readings: Seq<Reading>) -> bool {
    forall|i: int, j: int| 0 <= i <= j < readings.len() ==> readings[i].at <= readings[j].at
}

/// The index at which the unbroken run of Enabled readings that ends with
/// reading `i` begins.
pub open spec fn streak_start(readings: Seq<Reading>, i: int) -> int
    decreases i,
{
    if i > 0 && readings[i - 1].value == GpioValue::Enabled {
        streak_start(readings, i - 1)
    } else {
        i
    }
}

/// Every repeat that `phase` has scheduled is due at `floor` or later.
pub open spec fn repeats_not_before(phase: Phase, floor: nat) -> bool {
    match phase {
        Phase::Held(hold) => hold_deadline(hold) matches Some(deadline) ==> deadline >= floor,
        Phase::PendingRelease { since, revert } => hold_deadline(revert) matches Some(deadline)
            ==> deadline >= floor,
        _ => true,
    }
}

/// The key counts as pressed: its press is confirmed and its release is
/// not.
pub open spec fn pressed(phase: Phase) -> bool {
    phase is Held || phase is PendingRelease
}

} // verus!
