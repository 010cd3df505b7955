use shutdown_timer::schedule::{cancel_command, cancel_outcome, shutdown_command, shutdown_outcome};
use shutdown_timer::shutdown_delay_seconds;
use shutdown_timer::MAX_DELAY_MINUTES;

#[test]
fn delay_converts_minutes_to_seconds_exactly() {
    assert_eq!(shutdown_delay_seconds(1), 60);
    assert_eq!(shutdown_delay_seconds(5), 300);
    assert_eq!(shutdown_delay_seconds(90), 5400);
    assert_eq!(shutdown_delay_seconds(MAX_DELAY_MINUTES), 2147483640);
}

#[test]
fn shutdown_command_carries_seconds() {
    assert_eq!(shutdown_command(5), "shutdown /s /t 300");
    assert_eq!(shutdown_command(1), "shutdown /s /t 60");
    assert_eq!(shutdown_command(120), "shutdown /s /t 7200");
}

#[test]
fn cancel_command_is_abort() {
    assert_eq!(cancel_command(), "shutdown /a");
}

#[test]
fn schedule_success_confirms_with_delay() {
    let r = shutdown_outcome(5, Ok(()));
    assert_eq!(r, Ok(String::from("计划在5分钟后关机")));
    let r = shutdown_outcome(120, Ok(()));
    assert_eq!(r, Ok(String::from("计划在120分钟后关机")));
}

#[test]
fn schedule_failure_carries_cause() {
    let r = shutdown_outcome(5, Err(String::from("No such file or directory")));
    assert_eq!(
        r,
        Err(String::from("关机命令执行失败: No such file or directory"))
    );
    let msg = shutdown_outcome(5, Err(String::from("permission denied"))).unwrap_err();
    assert!(msg.contains("permission denied"));
}

#[test]
fn cancel_success_confirms() {
    let r = cancel_outcome(Ok(()));
    assert_eq!(r, Ok(String::from("关机计划已取消")));
}

#[test]
fn cancel_failure_carries_cause() {
    let r = cancel_outcome(Err(String::from("spawn failed")));
    assert_eq!(r, Err(String::from("取消关机命令失败: spawn failed")));
    let msg = cancel_outcome(Err(String::from("no shell"))).unwrap_err();
    assert!(msg.contains("no shell"));
}
