//! What holds of the key state machine over whole runs of readings.

use vstd::prelude::*;

use crate::gpio::GpioValue;
use crate::input_listener::model::{
    chronological, elapsed, event_at, hold_deadline, phase_after, pressed, repeats_not_before,
    step, streak_start, Hold, OutEvent, Phase, Reading, Timing,
};

verus! {

/// Bounce rejection: when all readings but one are Disabled, a key that
/// starts Idle emits nothing at all, whatever the one reading is and
/// whenever the readings were taken.
pub proof fn lemma_isolated_reading_is_rejected(timing: Timing, readings: Seq<Reading>, k: int)
    requires
        forall|i: int| 0 <= i < readings.len() && i != k ==> readings[i].value == GpioValue::Disabled,
    ensures
        forall|i: int|
            0 <= i < readings.len() ==> #[trigger] event_at(timing, Phase::Idle, readings, i)
                == OutEvent::Nothing,
{
    assert forall|i: int| 0 <= i < readings.len() implies #[trigger] event_at(
        timing,
        Phase::Idle,
        readings,
        i,
    ) == OutEvent::Nothing by {
        lemma_isolated_reading_phase(timing, readings, k, i as nat);
    }
}

/// With all readings but reading `k` Disabled, a key that starts Idle is
/// Idle before every reading except the one that follows `k`, where it is
/// Idle or waiting on the press that `k` began.
proof fn lemma_isolated_reading_phase(timing: Timing, readings: Seq<Reading>, k: int, n: nat)
    requires
        n <= readings.len(),
        forall|i: int| 0 <= i < readings.len() && i != k ==> readings[i].value == GpioValue::Disabled,
    ensures
        n != k + 1 ==> phase_after(timing, Phase::Idle, readings, n) == Phase::Idle,
        n == k + 1 ==> phase_after(timing, Phase::Idle, readings, n) == Phase::Idle || phase_after(
            timing,
            Phase::Idle,
            readings,
            n,
        ) == (Phase::PendingPress { since: readings[k].at }),
    decreases n,
{
    if n > 0 {
        lemma_isolated_reading_phase(timing, readings, k, (n - 1) as nat);
    }
}

/// A press needs a stable line: when a key that starts Idle emits Press at
/// reading `i`, that reading ends an unbroken run of at least two Enabled
/// readings whose first and last are at least the debounce duration apart.
/// A run of Enabled readings that spans less never produces a Press.
pub proof fn lemma_press_needs_stable_line(timing: Timing, readings: Seq<Reading>, i: int)
    requires
        0 <= i < readings.len(),
        event_at(timing, Phase::Idle, readings, i) == OutEvent::Press,
    ensures
        readings[i].value == GpioValue::Enabled,
        0 <= streak_start(readings, i) < i,
        forall|m: int| streak_start(readings, i) <= m <= i ==> readings[m].value == GpioValue::Enabled,
        elapsed(readings[i].at, readings[streak_start(readings, i)].at) >= timing.debounce,
{
    lemma_pending_press_since(timing, readings, i as nat);
    assert(phase_after(timing, Phase::Idle, readings, i as nat) is PendingPress);
    assert(streak_start(readings, i) == streak_start(readings, i - 1));
    lemma_streak_is_enabled(readings, i - 1);
    lemma_streak_is_enabled(readings, i);
}

/// Every reading from the start of a run of Enabled readings up to the
/// reading before `i` is Enabled.
proof fn lemma_streak_is_enabled(readings: Seq<Reading>, i: int)
    requires
        0 <= i,
    ensures
        0 <= streak_start(readings, i) <= i,
        forall|m: int| streak_start(readings, i) <= m < i ==> readings[m].value == GpioValue::Enabled,
    decreases i,
{
    if i > 0 && readings[i - 1].value == GpioValue::Enabled {
        lemma_streak_is_enabled(readings, i - 1);
    }
}

/// A key that started Idle and waits on a press after `n` readings has just
/// seen an Enabled reading and has waited since the first reading of the run
/// of Enabled readings that it belongs to; after an Enabled reading the key
/// is never Idle.
proof fn lemma_pending_press_since(timing: Timing, readings: Seq<Reading>, n: nat)
    requires
        n <= readings.len(),
    ensures
        phase_after(timing, Phase::Idle, readings, n) matches Phase::PendingPress { since } ==> n >= 1
            && readings[n - 1].value == GpioValue::Enabled && since == readings[streak_start(
            readings,
            n - 1,
        )].at,
        n >= 1 && readings[n - 1].value == GpioValue::Enabled ==> phase_after(
            timing,
            Phase::Idle,
            readings,
            n,
        ) != Phase::Idle,
    decreases n,
{
    if n > 0 {
        lemma_pending_press_since(timing, readings, (n - 1) as nat);
    }
}

/// One press per stable line: when the line of an Idle key goes Enabled and
/// stays Enabled, and reading `k` is the first after the initial one at which
/// the debounce duration has passed since the initial one, then reading `k`
/// emits Press and no other reading does.
pub proof fn lemma_stable_line_presses_once(timing: Timing, readings: Seq<Reading>, k: int)
    requires
        forall|i: int| 0 <= i < readings.len() ==> readings[i].value == GpioValue::Enabled,
        1 <= k < readings.len(),
        elapsed(readings[k].at, readings[0].at) >= timing.debounce,
        forall|m: int| 1 <= m < k ==> elapsed(readings[m].at, readings[0].at) < timing.debounce,
    ensures
        event_at(timing, Phase::Idle, readings, k) == OutEvent::Press,
        forall|i: int|
            0 <= i < readings.len() && i != k ==> #[trigger] event_at(timing, Phase::Idle, readings, i)
                != OutEvent::Press,
{
    lemma_stable_line_phase(timing, readings, k, k as nat);
    assert forall|i: int| 0 <= i < readings.len() && i != k implies #[trigger] event_at(
        timing,
        Phase::Idle,
        readings,
        i,
    ) != OutEvent::Press by {
        lemma_stable_line_phase(timing, readings, k, i as nat);
    }
}

/// On a line that stays Enabled, a key that starts Idle waits on the press
/// up to reading `k` and is pressed from then on.
proof fn lemma_stable_line_phase(timing: Timing, readings: Seq<Reading>, k: int, n: nat)
    requires
        forall|i: int| 0 <= i < readings.len() ==> readings[i].value == GpioValue::Enabled,
        1 <= k < readings.len(),
        elapsed(readings[k].at, readings[0].at) >= timing.debounce,
        forall|m: int| 1 <= m < k ==> elapsed(readings[m].at, readings[0].at) < timing.debounce,
        n <= readings.len(),
    ensures
        n == 0 ==> phase_after(timing, Phase::Idle, readings, n) == Phase::Idle,
        1 <= n <= k ==> phase_after(timing, Phase::Idle, readings, n) == (Phase::PendingPress {
            since: readings[0].at,
        }),
        n > k ==> phase_after(timing, Phase::Idle, readings, n) is Held,
    decreases n,
{
    if n > 0 {
        lemma_stable_line_phase(timing, readings, k, (n - 1) as nat);
    }
}

/// Without a repeat policy no reading ever emits Repeat, from whatever state
/// the key starts and however long its line stays Enabled.
pub proof fn lemma_no_repeat_without_policy(timing: Timing, start: Phase, readings: Seq<Reading>)
    requires
        timing.repeat is None,
    ensures
        forall|i: int|
            0 <= i < readings.len() ==> #[trigger] event_at(timing, start, readings, i)
                != OutEvent::Repeat,
{
}

/// A step keeps every scheduled repeat at `floor` or later, provided that
/// the repeats scheduled before it are, and that a press confirmed by it
/// schedules its first repeat at `floor` or later.
proof fn lemma_step_keeps_floor(timing: Timing, phase: Phase, reading: Reading, floor: nat)
    requires
        repeats_not_before(phase, floor),
        step(timing, phase, reading.value, reading.at).1 == OutEvent::Press ==> (timing.repeat matches Some(
            cadence,
        ) ==> reading.at + cadence.delay >= floor),
    ensures
        repeats_not_before(step(timing, phase, reading.value, reading.at).0, floor),
        step(timing, phase, reading.value, reading.at).1 == OutEvent::Repeat ==> reading.at >= floor,
{
}

/// Over readings `from` up to `to`, every scheduled repeat stays at `floor`
/// or later when it is so before reading `from` and every press confirmed
/// in between schedules its first repeat at `floor` or later.
proof fn lemma_run_keeps_floor(
    timing: Timing,
    start: Phase,
    readings: Seq<Reading>,
    from: nat,
    to: nat,
    floor: nat,
)
    requires
        from <= to <= readings.len(),
        repeats_not_before(phase_after(timing, start, readings, from), floor),
        forall|m: int|
            from <= m < to && #[trigger] event_at(timing, start, readings, m) == OutEvent::Press ==> (
            timing.repeat matches Some(cadence) ==> readings[m].at + cadence.delay >= floor),
    ensures
        repeats_not_before(phase_after(timing, start, readings, to), floor),
    decreases to,
{
    if from < to {
        let last = (to - 1) as nat;
        lemma_run_keeps_floor(timing, start, readings, from, last, floor);
        assert(event_at(timing, start, readings, last as int) == step(
            timing,
            phase_after(timing, start, readings, last),
            readings[last as int].value,
            readings[last as int].at,
        ).1);
        lemma_step_keeps_floor(
            timing,
            phase_after(timing, start, readings, last),
            readings[last as int],
            floor,
        );
    }
}

/// The first repeat waits for the delay: when reading `i` emits Press and a
/// later reading `j` emits Repeat, at least the repeat delay lies between
/// them.
pub proof fn lemma_first_repeat_after_delay(
    timing: Timing,
    start: Phase,
    readings: Seq<Reading>,
    i: int,
    j: int,
)
    requires
        chronological(readings),
        timing.repeat is Some,
        0 <= i < j < readings.len(),
        event_at(timing, start, readings, i) == OutEvent::Press,
        event_at(timing, start, readings, j) == OutEvent::Repeat,
    ensures
        readings[j].at >= readings[i].at + timing.repeat->0.delay,
{
    let floor = readings[i].at + timing.repeat->0.delay;
    lemma_run_keeps_floor(timing, start, readings, (i + 1) as nat, j as nat, floor);
    lemma_step_keeps_floor(
        timing,
        phase_after(timing, start, readings, j as nat),
        readings[j],
        floor,
    );
}

/// Repeats keep their distance: when readings `i` and `j` both emit Repeat
/// and no press is confirmed between them, at least the repeat rate lies
/// between them.
pub proof fn lemma_repeats_spaced_by_rate(
    timing: Timing,
    start: Phase,
    readings: Seq<Reading>,
    i: int,
    j: int,
)
    requires
        timing.repeat is Some,
        0 <= i < j < readings.len(),
        event_at(timing, start, readings, i) == OutEvent::Repeat,
        event_at(timing, start, readings, j) == OutEvent::Repeat,
        forall|m: int| i < m < j ==> #[trigger] event_at(timing, start, readings, m) != OutEvent::Press,
    ensures
        readings[j].at >= readings[i].at + timing.repeat->0.rate,
{
    let floor = readings[i].at + timing.repeat->0.rate;
    lemma_run_keeps_floor(timing, start, readings, (i + 1) as nat, j as nat, floor);
    lemma_step_keeps_floor(
        timing,
        phase_after(timing, start, readings, j as nat),
        readings[j],
        floor,
    );
}

/// A release bounce keeps the repeat schedule: when the line of a pressed key
/// reads Disabled one or more times, all within the debounce duration of the
/// first such reading, and then reads Enabled again, nothing is emitted and
/// the key is back in the pressed state it was in, with the deadline it had.
/// The next repeat is then due exactly when it was due before the bounce.
pub proof fn lemma_release_bounce_keeps_schedule(timing: Timing, hold: Hold, readings: Seq<Reading>)
    requires
        readings.len() >= 2,
        readings[readings.len() - 1].value == GpioValue::Enabled,
        forall|m: int| 0 <= m < readings.len() - 1 ==> readings[m].value == GpioValue::Disabled,
        forall|m: int|
            1 <= m < readings.len() - 1 ==> elapsed(readings[m].at, readings[0].at) < timing.debounce,
    ensures
        phase_after(timing, Phase::Held(hold), readings, readings.len()) == Phase::Held(hold),
        forall|i: int|
            0 <= i < readings.len() ==> #[trigger] event_at(timing, Phase::Held(hold), readings, i)
                == OutEvent::Nothing,
        forall|now: nat|
            timing.repeat is Some && hold_deadline(hold) is Some ==> (#[trigger] step(
                timing,
                phase_after(timing, Phase::Held(hold), readings, readings.len()),
                GpioValue::Enabled,
                now,
            ).1 == OutEvent::Repeat <==> now >= hold_deadline(hold)->0),
{
    let start = Phase::Held(hold);
    let last = (readings.len() - 1) as nat;
    lemma_release_bounce_phase(timing, hold, readings, last);
    assert forall|i: int| 0 <= i < readings.len() implies #[trigger] event_at(
        timing,
        start,
        readings,
        i,
    ) == OutEvent::Nothing by {
        if i > 0 {
            lemma_release_bounce_phase(timing, hold, readings, i as nat);
        }
    }
}

/// While the line of a pressed key reads Disabled within the debounce
/// duration of the first such reading, the key waits on the release and
/// remembers the pressed state that it left.
proof fn lemma_release_bounce_phase(timing: Timing, hold: Hold, readings: Seq<Reading>, n: nat)
    requires
        1 <= n <= readings.len() - 1,
        forall|m: int| 0 <= m < readings.len() - 1 ==> readings[m].value == GpioValue::Disabled,
        forall|m: int|
            1 <= m < readings.len() - 1 ==> elapsed(readings[m].at, readings[0].at) < timing.debounce,
    ensures
        phase_after(timing, Phase::Held(hold), readings, n) == (Phase::PendingRelease {
            since: readings[0].at,
            revert: hold,
        }),
    decreases n,
{
    if n > 1 {
        lemma_release_bounce_phase(timing, hold, readings, (n - 1) as nat);
    } else {
        assert(phase_after(timing, Phase::Held(hold), readings, 0) == Phase::Held(hold));
    }
}

/// A released line is steady: while the line of an Idle key reads Disabled,
/// the key stays Idle and emits nothing.
pub proof fn lemma_idle_is_steady(timing: Timing, readings: Seq<Reading>, n: nat)
    requires
        n <= readings.len(),
        forall|i: int| 0 <= i < readings.len() ==> readings[i].value == GpioValue::Disabled,
    ensures
        phase_after(timing, Phase::Idle, readings, n) == Phase::Idle,
        forall|i: int|
            0 <= i < n ==> #[trigger] event_at(timing, Phase::Idle, readings, i) == OutEvent::Nothing,
    decreases n,
{
    if n > 0 {
        lemma_idle_is_steady(timing, readings, (n - 1) as nat);
        assert forall|i: int| 0 <= i < n implies #[trigger] event_at(timing, Phase::Idle, readings, i)
            == OutEvent::Nothing by {
            lemma_idle_is_steady(timing, readings, i as nat);
        }
    }
}

/// A pressed line is steady between repeats: while the line of a pressed key
/// reads Enabled and no repeat is due, the key stays in the pressed state it
/// is in, deadline included, and emits nothing.
pub proof fn lemma_hold_is_steady(timing: Timing, hold: Hold, readings: Seq<Reading>, n: nat)
    requires
        n <= readings.len(),
        forall|i: int| 0 <= i < readings.len() ==> readings[i].value == GpioValue::Enabled,
        timing.repeat is Some && hold_deadline(hold) is Some ==> forall|i: int|
            0 <= i < readings.len() ==> readings[i].at < hold_deadline(hold)->0,
    ensures
        phase_after(timing, Phase::Held(hold), readings, n) == Phase::Held(hold),
        forall|i: int|
            0 <= i < n ==> #[trigger] event_at(timing, Phase::Held(hold), readings, i)
                == OutEvent::Nothing,
    decreases n,
{
    if n > 0 {
        lemma_hold_is_steady(timing, hold, readings, (n - 1) as nat);
        assert forall|i: int| 0 <= i < n implies #[trigger] event_at(
            timing,
            Phase::Held(hold),
            readings,
            i,
        ) == OutEvent::Nothing by {
            lemma_hold_is_steady(timing, hold, readings, i as nat);
        }
    }
}

/// A pressed line keeps its cadence: while the line of a pressed key reads
/// Enabled the key stays pressed, and a reading emits Repeat when a repeat
/// policy is set and the deadline that the key holds has come, and nothing
/// otherwise.
pub proof fn lemma_pressed_line_keeps_cadence(
    timing: Timing,
    hold: Hold,
    readings: Seq<Reading>,
    i: int,
)
    requires
        0 <= i < readings.len(),
        forall|m: int| 0 <= m < readings.len() ==> readings[m].value == GpioValue::Enabled,
    ensures
        phase_after(timing, Phase::Held(hold), readings, i as nat) is Held,
        phase_after(timing, Phase::Held(hold), readings, (i + 1) as nat) is Held,
        event_at(timing, Phase::Held(hold), readings, i) == (if timing.repeat is Some && hold_deadline(
            phase_after(timing, Phase::Held(hold), readings, i as nat)->Held_0,
        ) is Some && readings[i].at >= hold_deadline(
            phase_after(timing, Phase::Held(hold), readings, i as nat)->Held_0,
        )->0 {
            OutEvent::Repeat
        } else {
            OutEvent::Nothing
        }),
    decreases i,
{
    if i > 0 {
        lemma_pressed_line_keeps_cadence(timing, hold, readings, i - 1);
    }
}

/// Every event has its place in the life of a press: Press takes a key
/// that is not pressed to pressed, Release takes a pressed key to not
/// pressed, Repeat comes from a pressed key and leaves it pressed, and a
/// step without an event leaves the key pressed or not as it was.
pub proof fn lemma_events_follow_the_press(timing: Timing, phase: Phase, reading: Reading)
    ensures
        ({
            let (next, event) = step(timing, phase, reading.value, reading.at);
            match event {
                OutEvent::Press => !pressed(phase) && pressed(next),
                OutEvent::Release => pressed(phase) && !pressed(next),
                OutEvent::Repeat => pressed(phase) && pressed(next),
                OutEvent::Nothing => pressed(next) == pressed(phase),
            }
        }),
{
}

/// From reading `from` up to reading `to`, a key that is pressed stays
/// pressed while no reading emits Release, and a key that is not pressed
/// stays so while no reading emits Press.
proof fn lemma_press_lasts(timing: Timing, start: Phase, readings: Seq<Reading>, from: nat, to: nat)
    requires
        from <= to <= readings.len(),
    ensures
        pressed(phase_after(timing, start, readings, from)) && (forall|m: int|
            from <= m < to ==> #[trigger] event_at(timing, start, readings, m) != OutEvent::Release)
            ==> pressed(phase_after(timing, start, readings, to)),
        !pressed(phase_after(timing, start, readings, from)) && (forall|m: int|
            from <= m < to ==> #[trigger] event_at(timing, start, readings, m) != OutEvent::Press)
            ==> !pressed(phase_after(timing, start, readings, to)),
    decreases to,
{
    if from < to {
        let last = (to - 1) as nat;
        lemma_press_lasts(timing, start, readings, from, last);
        lemma_events_follow_the_press(
            timing,
            phase_after(timing, start, readings, last),
            readings[last as int],
        );
        assert(event_at(timing, start, readings, last as int) == step(
            timing,
            phase_after(timing, start, readings, last),
            readings[last as int].value,
            readings[last as int].at,
        ).1);
    }
}

/// Presses and releases take turns: between two readings that both emit
/// Press some reading emits Release, and between two that both emit Release
/// some reading emits Press.
pub proof fn lemma_presses_and_releases_take_turns(
    timing: Timing,
    start: Phase,
    readings: Seq<Reading>,
    i: int,
    j: int,
)
    requires
        0 <= i < j < readings.len(),
        event_at(timing, start, readings, i) == event_at(timing, start, readings, j),
        event_at(timing, start, readings, i) == OutEvent::Press || event_at(timing, start, readings, i)
            == OutEvent::Release,
    ensures
        event_at(timing, start, readings, i) == OutEvent::Press ==> exists|m: int|
            i < m < j && #[trigger] event_at(timing, start, readings, m) == OutEvent::Release,
        event_at(timing, start, readings, i) == OutEvent::Release ==> exists|m: int|
            i < m < j && #[trigger] event_at(timing, start, readings, m) == OutEvent::Press,
{
    lemma_events_follow_the_press(timing, phase_after(timing, start, readings, i as nat), readings[i]);
    lemma_events_follow_the_press(timing, phase_after(timing, start, readings, j as nat), readings[j]);
    lemma_press_lasts(timing, start, readings, (i + 1) as nat, j as nat);
}

/// A key that was not pressed at the start and is pressed after `n`
/// readings owes that to a Press: some reading before emitted Press, and no
/// reading since has emitted Press or Release.
pub proof fn lemma_pressed_since_a_press(timing: Timing, start: Phase, readings: Seq<Reading>, n: nat)
    requires
        n <= readings.len(),
        !pressed(start),
        pressed(phase_after(timing, start, readings, n)),
    ensures
        exists|i: int|
            0 <= i < n && #[trigger] event_at(timing, start, readings, i) == OutEvent::Press
                && forall|m: int|
                i < m < n ==> #[trigger] event_at(timing, start, readings, m) != OutEvent::Press
                    && event_at(timing, start, readings, m) != OutEvent::Release,
    decreases n,
{
    let last = (n - 1) as nat;
    lemma_events_follow_the_press(
        timing,
        phase_after(timing, start, readings, last),
        readings[last as int],
    );
    if event_at(timing, start, readings, last as int) == OutEvent::Press {
        assert(0 <= last < n && event_at(timing, start, readings, last as int) == OutEvent::Press);
    } else {
        lemma_pressed_since_a_press(timing, start, readings, last);
        let i = choose|i: int|
            0 <= i < last && #[trigger] event_at(timing, start, readings, i) == OutEvent::Press
                && forall|m: int|
                i < m < last ==> #[trigger] event_at(timing, start, readings, m) != OutEvent::Press
                    && event_at(timing, start, readings, m) != OutEvent::Release;
        assert(0 <= i < n && event_at(timing, start, readings, i) == OutEvent::Press);
        assert forall|m: int| i < m < n implies #[trigger] event_at(timing, start, readings, m)
            != OutEvent::Press && event_at(timing, start, readings, m) != OutEvent::Release by {
            if m == last {
            }
        }
    }
}

/// Repeats and releases belong to a press: when a key that was not pressed
/// at the start emits Repeat or Release at reading `j`, an earlier reading
/// emitted Press, and no reading between the two emitted Press or Release.
/// The events of one press so come as Press, then Repeats, then Release.
pub proof fn lemma_events_come_in_order(timing: Timing, start: Phase, readings: Seq<Reading>, j: int)
    requires
        0 <= j < readings.len(),
        !pressed(start),
        event_at(timing, start, readings, j) == OutEvent::Repeat || event_at(timing, start, readings, j)
            == OutEvent::Release,
    ensures
        exists|i: int|
            0 <= i < j && #[trigger] event_at(timing, start, readings, i) == OutEvent::Press
                && forall|m: int|
                i < m < j ==> #[trigger] event_at(timing, start, readings, m) != OutEvent::Press
                    && event_at(timing, start, readings, m) != OutEvent::Release,
{
    lemma_events_follow_the_press(timing, phase_after(timing, start, readings, j as nat), readings[j]);
    lemma_pressed_since_a_press(timing, start, readings, j as nat);
}

} // verus!
