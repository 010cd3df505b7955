//! Scheduling and cancelling the OS shutdown: the command strings handed to
//! the shell, and the user-facing outcome of each spawn attempt.

use vstd::prelude::*;
use vstd::string::*;
use crate::decimal::{dec_string, spec_dec};
use crate::MAX_DELAY_MINUTES;

verus! {

/// The confirmation for a scheduled shutdown: the requested delay in
/// minutes, embedded in the fixed message text.
pub open spec fn spec_schedule_ok_message(minutes: int) -> Seq<char> {
    "计划在"@ + spec_dec(minutes) + "分钟后关机"@
}

/// The failure message for a shutdown that could not be scheduled: the fixed
/// prefix followed by the underlying cause, verbatim.
pub open spec fn spec_schedule_err_message(cause: Seq<char>) -> Seq<char> {
    "关机命令执行失败: "@ + cause
}

/// The confirmation for a cancelled shutdown.
pub open spec fn spec_cancel_ok_message() -> Seq<char> {
    "关机计划已取消"@
}

/// The failure message for a cancellation that could not be issued: the
/// fixed prefix followed by the underlying cause, verbatim.
pub open spec fn spec_cancel_err_message(cause: Seq<char>) -> Seq<char> {
    "取消关机命令失败: "@ + cause
}

/// The argument string handed to the shell to schedule a shutdown after the
/// given delay: `shutdown /s /t <seconds>`, with the delay converted to
/// seconds exactly.
pub open spec fn spec_shutdown_command(minutes: int) -> Seq<char> {
    "shutdown /s /t "@ + spec_dec(minutes * 60)
}

/// Builds the shell argument that schedules a shutdown `delay_minutes`
/// minutes from now.
pub fn shutdown_command(delay_minutes: i32) -> (r: String)
    requires
        1 <= delay_minutes <= MAX_DELAY_MINUTES,
    ensures
        r@ == spec_shutdown_command(delay_minutes as int),
{
    let seconds = crate::shutdown_delay_seconds(delay_minutes);
    let r = String::from_str("shutdown /s /t ").concat(dec_string(seconds as u32).as_str());
    proof {
        assert(r@ =~= spec_shutdown_command(delay_minutes as int));
    }
    r
}

/// The shell argument that aborts a pending shutdown.
pub fn cancel_command() -> (r: &'static str)
    ensures
        r@ == "shutdown /a"@,
{
    "shutdown /a"
}

/// Turns the result of spawning the OS shutdown command into the user-facing
/// outcome: success yields the confirmation carrying the requested delay,
/// and a spawn failure yields the error message carrying its cause.
pub fn shutdown_outcome(delay_minutes: i32, spawn_result: Result<(), String>) -> (r: Result<
    String,
    String,
>)
    requires
        1 <= delay_minutes,
    ensures
        r is Ok <==> spawn_result is Ok,
        spawn_result is Ok ==> (r matches Ok(m) && m@ == spec_schedule_ok_message(
            delay_minutes as int,
        )),
        spawn_result matches Err(e) ==> (r matches Err(m) && m@ == spec_schedule_err_message(e@)),
{
    match spawn_result {
        Ok(_) => {
            let num = dec_string(delay_minutes as u32);
            let m = String::from_str("计划在").concat(num.as_str()).concat("分钟后关机");
            proof {
                assert(m@ =~= spec_schedule_ok_message(delay_minutes as int));
            }
            Ok(m)
        },
        Err(e) => {
            let m = String::from_str("关机命令执行失败: ").concat(e.as_str());
            Err(m)
        },
    }
}

/// Turns the result of spawning the OS cancel command into the user-facing
/// outcome: success yields the fixed confirmation, and a spawn failure
/// yields the error message carrying its cause.
pub fn cancel_outcome(spawn_result: Result<(), String>) -> (r: Result<String, String>)
    ensures
        r is Ok <==> spawn_result is Ok,
        spawn_result is Ok ==> (r matches Ok(m) && m@ == spec_cancel_ok_message()),
        spawn_result matches Err(e) ==> (r matches Err(m) && m@ == spec_cancel_err_message(e@)),
{
    match spawn_result {
        Ok(_) => Ok(String::from_str("关机计划已取消")),
        Err(e) => {
            let m = String::from_str("取消关机命令失败: ").concat(e.as_str());
            Err(m)
        },
    }
}

/// Each failure message ends with the underlying cause, verbatim: the cause
/// can be read back out of the message, so it is never lost.
pub proof fn lemma_err_message_contains_cause(cause: Seq<char>)
    ensures
        spec_schedule_err_message(cause).len() >= cause.len(),
        spec_schedule_err_message(cause).subrange(
            spec_schedule_err_message(cause).len() - cause.len(),
            spec_schedule_err_message(cause).len() as int,
        ) == cause,
        spec_cancel_err_message(cause).len() >= cause.len(),
        spec_cancel_err_message(cause).subrange(
            spec_cancel_err_message(cause).len() - cause.len(),
            spec_cancel_err_message(cause).len() as int,
        ) == cause,
{
    assert(spec_schedule_err_message(cause).subrange(
        spec_schedule_err_message(cause).len() - cause.len(),
        spec_schedule_err_message(cause).len() as int,
    ) =~= cause);
    assert(spec_cancel_err_message(cause).subrange(
        spec_cancel_err_message(cause).len() - cause.len(),
        spec_cancel_err_message(cause).len() as int,
    ) =~= cause);
}

/// The confirmation for a scheduled shutdown carries the requested delay:
/// the delay's digits sit between the fixed front and back of the message,
/// so they can be read back out of it.
pub proof fn lemma_ok_message_contains_delay(minutes: int)
    ensures
        spec_schedule_ok_message(minutes).subrange(
            "计划在"@.len() as int,
            spec_schedule_ok_message(minutes).len() - "分钟后关机"@.len(),
        ) == spec_dec(minutes),
{
    assert(spec_schedule_ok_message(minutes).subrange(
        "计划在"@.len() as int,
        spec_schedule_ok_message(minutes).len() - "分钟后关机"@.len(),
    ) =~= spec_dec(minutes));
}

} // verus!
