use shutdown_timer::countdown::{compute_remaining, start_countdown, CountdownState};

#[test]
fn five_minutes_starts_at_three_hundred() {
    let s = CountdownState::start_state(5);
    assert!(s.active);
    assert_eq!(s.remaining_seconds, 300);
}

#[test]
fn idle_state_is_inactive_and_empty() {
    let s = CountdownState::new_idle();
    assert!(!s.active);
    assert_eq!(s.remaining_seconds, 0);
}

#[test]
fn ticks_count_down_by_one_per_second() {
    let mut s = CountdownState::start_state(5);
    let end: i64 = 1_000_300;
    let mut expected: i64 = 300;
    let mut now: i64 = 1_000_000;
    while expected > 1 {
        now += 1;
        expected -= 1;
        let emitted = s.tick(end, now);
        assert_eq!(emitted, Some(expected));
        assert_eq!(s.remaining_seconds, expected);
    }
    // At the end time the loop falls silent and stops updating.
    let emitted = s.tick(end, end);
    assert_eq!(emitted, None);
    assert_eq!(s.remaining_seconds, 1);
    let emitted = s.tick(end, end + 10);
    assert_eq!(emitted, None);
}

#[test]
fn stop_silences_the_very_next_tick() {
    let mut s = CountdownState::start_state(5);
    let emitted = s.tick(300, 10);
    assert_eq!(emitted, Some(290));
    s.stop();
    assert!(!s.active);
    assert_eq!(s.remaining_seconds, 290);
    let emitted = s.tick(300, 11);
    assert_eq!(emitted, None);
    assert_eq!(s.remaining_seconds, 290);
}

#[test]
fn remaining_never_goes_negative() {
    assert_eq!(compute_remaining(100, 100), 0);
    assert_eq!(compute_remaining(100, 101), 0);
    assert_eq!(compute_remaining(100, i64::MAX), 0);
    assert_eq!(compute_remaining(i64::MIN, 0), 0);
    assert_eq!(compute_remaining(100, 40), 60);
    assert_eq!(compute_remaining(i64::MAX, -1), i64::MAX);
}

#[test]
fn clock_driven_countdown_starts_full_and_counts_down() {
    let (mut s, end) = start_countdown(1);
    assert!(s.active);
    assert_eq!(s.remaining_seconds, 60);
    // A real clock reading drives the first poll: whatever it read, the
    // emitted value equals the state's remaining time and stays positive,
    // or the poll is silent and the state is untouched.
    match s.tick_now(end) {
        Some(v) => {
            assert!(v > 0);
            assert_eq!(v, s.remaining_seconds);
        }
        None => {
            assert_eq!(s.remaining_seconds, 60);
        }
    }
    s.stop();
    assert_eq!(s.tick_now(end), None);
}
