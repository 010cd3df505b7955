//! The cancellable countdown: shared state, the once-per-second poll that
//! recomputes and reports the remaining seconds, and the stop operation.

use vstd::prelude::*;
use crate::MAX_DELAY_MINUTES;

verus! {

/// Shared state of one countdown: whether it is still running, and the
/// seconds left until its end time.
#[derive(Clone, Copy, PartialEq, Eq, Structural, Debug)]
pub struct CountdownState {
    pub active: bool,
    pub remaining_seconds: i64,
}

/// Seconds left until `end` as seen from `now`: `end - now`, clamped to 0
/// from below (the displayed value never goes negative) and to `i64::MAX`
/// from above.
pub open spec fn spec_remaining(end: int, now: int) -> int {
    if end - now <= 0 {
        0
    } else if end - now > i64::MAX {
        i64::MAX as int
    } else {
        end - now
    }
}

/// One poll of the countdown at clock reading `now`: a stopped countdown is
/// left untouched and emits nothing; one whose remaining time has run out is
/// left untouched and emits nothing (the loop ends); otherwise the state
/// takes the freshly computed remaining time and that value is emitted.
pub open spec fn spec_tick(s: CountdownState, end: int, now: int) -> (CountdownState, Option<
    i64,
>) {
    if !s.active {
        (s, None)
    } else if spec_remaining(end, now) == 0 {
        (s, None)
    } else {
        let r = spec_remaining(end, now) as i64;
        (CountdownState { active: true, remaining_seconds: r }, Some(r))
    }
}

impl CountdownState {
    /// The state invariant: the displayed remaining time is never negative.
    pub open spec fn well_formed(self) -> bool {
        self.remaining_seconds >= 0
    }

    /// A countdown that has not started: inactive, with nothing remaining.
    pub fn new_idle() -> (s: CountdownState)
        ensures
            !s.active,
            s.remaining_seconds == 0,
            s.well_formed(),
    {
        CountdownState { active: false, remaining_seconds: 0 }
    }

    /// The state right after a countdown of `minutes` minutes starts:
    /// active, with the full `minutes * 60` seconds remaining.
    pub fn start_state(minutes: i32) -> (s: CountdownState)
        requires
            1 <= minutes <= MAX_DELAY_MINUTES,
        ensures
            s.active,
            s.remaining_seconds == minutes * 60,
            s.well_formed(),
    {
        let seconds: i32 = minutes * 60;
        CountdownState { active: true, remaining_seconds: seconds as i64 }
    }

    /// Stops the countdown: the active flag falls, the remaining time is
    /// left as it was, and every later poll will emit nothing.
    pub fn stop(&mut self)
        ensures
            !final(self).active,
            final(self).remaining_seconds == old(self).remaining_seconds,
    {
        self.active = false;
    }

    /// One poll of the countdown against the given clock reading, exactly
    /// as `spec_tick` describes it.
    pub fn tick(&mut self, end_time: i64, now: i64) -> (emitted: Option<i64>)
        ensures
            (*final(self), emitted) == spec_tick(*old(self), end_time as int, now as int),
            final(self).active == old(self).active,
            !old(self).active ==> *final(self) == *old(self) && emitted is None,
            emitted is None ==> *final(self) == *old(self),
            emitted matches Some(v) ==> old(self).active && v == final(self).remaining_seconds
                && v == spec_remaining(end_time as int, now as int) && v > 0,
            old(self).well_formed() ==> final(self).well_formed(),
    {
        if !self.active {
            return None;
        }
        let r = compute_remaining(end_time, now);
        if r == 0 {
            return None;
        }
        self.remaining_seconds = r;
        Some(r)
    }

    /// One poll of the countdown against the system clock. The clock reading
    /// is out of the caller's hands, so the contract promises what holds of
    /// every reading: a stopped countdown is untouched and silent, a silent
    /// poll changes nothing, and an emitted value is the positive clamped
    /// remaining time now held by the state.
    pub fn tick_now(&mut self, end_time: i64) -> (emitted: Option<i64>)
        ensures
            final(self).active == old(self).active,
            !old(self).active ==> *final(self) == *old(self) && emitted is None,
            emitted is None ==> *final(self) == *old(self),
            emitted matches Some(v) ==> old(self).active && v == final(self).remaining_seconds
                && v > 0 && (exists|now: int|
                (*final(self), emitted) == spec_tick(*old(self), end_time as int, now)),
            old(self).well_formed() ==> final(self).well_formed(),
    {
        let now = crate::clock::read_clock().epoch_seconds;
        let emitted = self.tick(end_time, now);
        proof {
            assert((*self, emitted) == spec_tick(*old(self), end_time as int, now as int));
        }
        emitted
    }
}

/// The clamped remaining time, computed in machine arithmetic.
pub fn compute_remaining(end_time: i64, now: i64) -> (r: i64)
    ensures
        r == spec_remaining(end_time as int, now as int),
{
    match end_time.checked_sub(now) {
        Some(d) => if d <= 0 {
            0
        } else {
            d
        },
        None => if end_time > now {
            i64::MAX
        } else {
            0
        },
    }
}

/// Starts a countdown of `minutes` minutes against the system clock: the
/// returned state is active and holds the full `minutes * 60` seconds, and
/// the returned end time is meant to be handed back to each later poll.
pub fn start_countdown(minutes: i32) -> (r: (CountdownState, i64))
    requires
        1 <= minutes <= MAX_DELAY_MINUTES,
    ensures
        r.0.active,
        r.0.remaining_seconds == minutes * 60,
        r.0.well_formed(),
{
    let s = CountdownState::start_state(minutes);
    let now = crate::clock::read_clock().epoch_seconds;
    let seconds: i64 = (minutes as i64) * 60;
    let end = match now.checked_add(seconds) {
        Some(e) => e,
        None => i64::MAX,
    };
    (s, end)
}

/// The remaining time is never negative: it is clamped at zero.
pub proof fn lemma_remaining_nonnegative(end: int, now: int)
    ensures
        spec_remaining(end, now) >= 0,
{
}

/// As the clock advances toward a fixed end time, the remaining time never
/// increases, and it is zero exactly once the clock has reached the end.
pub proof fn lemma_remaining_counts_down(end: int, t1: int, t2: int)
    requires
        t1 <= t2,
    ensures
        spec_remaining(end, t1) >= spec_remaining(end, t2),
        spec_remaining(end, t2) == 0 <==> t2 >= end,
{
}

/// From one second to the next, a positive remaining time short of the
/// clamp drops by exactly one: the countdown counts down second by second.
pub proof fn lemma_remaining_drops_by_one(end: int, t: int)
    requires
        0 < spec_remaining(end, t) < i64::MAX,
    ensures
        spec_remaining(end, t + 1) == spec_remaining(end, t) - 1,
{
}

/// Once the countdown is stopped, a poll changes nothing and emits nothing:
/// updates cease from the very next poll on.
pub proof fn lemma_stopped_tick_is_silent(s: CountdownState, end: int, now: int)
    requires
        !s.active,
    ensures
        spec_tick(s, end, now) == (s, None::<i64>),
{
}

/// While the countdown is active, a poll emits exactly the clamped remaining
/// time as long as it is positive, and falls silent, leaving the state
/// untouched, the moment it reaches zero.
pub proof fn lemma_active_tick_emits_remaining(s: CountdownState, end: int, now: int)
    requires
        s.active,
    ensures
        spec_remaining(end, now) > 0 ==> spec_tick(s, end, now).1 == Some(
            spec_remaining(end, now) as i64,
        ),
        spec_remaining(end, now) == 0 ==> spec_tick(s, end, now) == (s, None::<i64>),
{
}

} // verus!
