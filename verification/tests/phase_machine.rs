use shutdown_timer::phase::{CountdownEvent, CountdownPhase};

#[test]
fn start_enters_running() {
    assert_eq!(CountdownPhase::Idle.step(CountdownEvent::Start), CountdownPhase::Running);
}

#[test]
fn running_completes_on_zero() {
    assert_eq!(CountdownPhase::Running.step(CountdownEvent::ReachZero), CountdownPhase::Completed);
}

#[test]
fn running_cancels_on_stop() {
    assert_eq!(CountdownPhase::Running.step(CountdownEvent::Stop), CountdownPhase::Cancelled);
}

#[test]
fn terminal_phases_need_a_fresh_start() {
    assert_eq!(CountdownPhase::Completed.step(CountdownEvent::ReachZero), CountdownPhase::Completed);
    assert_eq!(CountdownPhase::Completed.step(CountdownEvent::Stop), CountdownPhase::Completed);
    assert_eq!(CountdownPhase::Cancelled.step(CountdownEvent::ReachZero), CountdownPhase::Cancelled);
    assert_eq!(CountdownPhase::Cancelled.step(CountdownEvent::Stop), CountdownPhase::Cancelled);
    assert_eq!(CountdownPhase::Completed.step(CountdownEvent::Start), CountdownPhase::Running);
    assert_eq!(CountdownPhase::Cancelled.step(CountdownEvent::Start), CountdownPhase::Running);
}

#[test]
fn idle_ignores_zero_and_stop() {
    assert_eq!(CountdownPhase::Idle.step(CountdownEvent::ReachZero), CountdownPhase::Idle);
    assert_eq!(CountdownPhase::Idle.step(CountdownEvent::Stop), CountdownPhase::Idle);
}
