//! Assembling the scheduling invocation itself: the `at` job on the
//! Unix-like branch, the `schtasks` one-shot task on the Windows-like one.

use vstd::prelude::*;

use crate::clock::local_now_hour_minute;
use crate::decimal::{dec_str, decimal_string};
use crate::trigger::{hh_mm, trigger_time_string, trigger_total_minutes};

verus! {

/// Which family of scheduling utility the host offers.
#[derive(Clone, Copy, PartialEq, Eq, Structural, Debug)]
pub enum Platform {
    /// Unix-like: defer through `at`, which reads the command from its
    /// standard input.
    Unix,
    /// Windows-like: create a named one-shot task through `schtasks`.
    Windows,
}

/// One synchronous program invocation: the program to spawn, its argument
/// list, and the line to feed it on standard input, if any.
pub struct ProgramCall {
    /// The program to spawn.
    pub program: String,
    /// Its arguments, in order.
    pub args: Vec<String>,
    /// The line piped to its standard input, where one is needed.
    pub stdin_line: Option<String>,
}

/// Why a scheduling request could not even be assembled.
#[derive(Clone, Copy, PartialEq, Eq, Structural, Debug)]
pub enum ScheduleError {
    /// The local wall-clock time could not be determined.
    ClockUnavailable,
}

impl ScheduleError {
    /// A human-readable description of the error.
    pub fn message(&self) -> (s: &'static str)
        ensures
            s@ == "the local wall-clock time could not be determined"@,
    {
        "the local wall-clock time could not be determined"
    }
}

/// The arguments handed to `at`: run "now + `delay` minute".
pub open spec fn at_args(delay: int) -> Seq<Seq<char>> {
    seq!["now"@, "+"@, dec_str(delay), "minute"@]
}

/// The trigger action handed to `schtasks`: a minimized shell that runs
/// `command`.
pub open spec fn task_action(command: Seq<char>) -> Seq<char> {
    "cmd /C start \"\" /MIN \"cmd\" \"/C "@ + command + "\""@
}

/// The arguments handed to `schtasks`: create the task named `task_name`,
/// firing once at `time`, overwriting any task of the same name.
pub open spec fn schtasks_args(task_name: Seq<char>, command: Seq<char>, time: Seq<char>) -> Seq<
    Seq<char>,
> {
    seq![
        "/create"@,
        "/tn"@,
        task_name,
        "/tr"@,
        task_action(command),
        "/sc"@,
        "once"@,
        "/st"@,
        time,
        "/f"@,
    ]
}

/// The complete `at` invocation for `command` after `delay` minutes: the
/// command itself, with a newline appended, goes in on standard input, so no
/// shell interprets it at this stage.
pub open spec fn is_unix_call(c: ProgramCall, command: Seq<char>, delay: int) -> bool {
    &&& c.program@ == "at"@
    &&& c.args.deep_view() == at_args(delay)
    &&& c.stdin_line matches Some(line) && line@ == command + "\n"@
}

/// The complete `schtasks` invocation for `command` under `task_name`, with
/// the trigger time `total` given in minutes past midnight.
pub open spec fn is_windows_call(
    c: ProgramCall,
    command: Seq<char>,
    task_name: Seq<char>,
    total: int,
) -> bool {
    &&& c.program@ == "schtasks"@
    &&& c.args.deep_view() == schtasks_args(task_name, command, hh_mm(total / 60, total % 60))
    &&& c.stdin_line is None
}

/// Builds the deferred-execution invocation for the Unix-like branch. Any
/// delay, zero and negative ones included, is passed through verbatim.
pub fn unix_schedule_call(command: &str, delay_minutes: i64) -> (c: ProgramCall)
    ensures
        is_unix_call(c, command@, delay_minutes as int),
{
    let mut args: Vec<String> = Vec::new();
    args.push(String::from_str("now"));
    args.push(String::from_str("+"));
    args.push(decimal_string(delay_minutes));
    args.push(String::from_str("minute"));
    let mut line = String::from_str(command);
    line.append("\n");
    let c = ProgramCall {
        program: String::from_str("at"),
        args,
        stdin_line: Some(line),
    };
    proof {
        assert(c.args.deep_view() =~~= at_args(delay_minutes as int));
    }
    c
}

/// Builds the task-scheduler invocation for the Windows-like branch, given
/// the current local time of day. Any delay, zero and negative ones
/// included, is passed through into the wrapped trigger time.
pub fn windows_schedule_call(
    command: &str,
    delay_minutes: i64,
    task_name: &str,
    now_hour: u8,
    now_minute: u8,
) -> (c: ProgramCall)
    requires
        now_hour < 24,
        now_minute < 60,
    ensures
        is_windows_call(
            c,
            command@,
            task_name@,
            trigger_total_minutes(now_hour as int, now_minute as int, delay_minutes as int),
        ),
{
    let time = trigger_time_string(now_hour, now_minute, delay_minutes);
    let mut action = String::from_str("cmd /C start \"\" /MIN \"cmd\" \"/C ");
    action.append(command);
    action.append("\"");
    let mut args: Vec<String> = Vec::new();
    args.push(String::from_str("/create"));
    args.push(String::from_str("/tn"));
    args.push(String::from_str(task_name));
    args.push(String::from_str("/tr"));
    args.push(action);
    args.push(String::from_str("/sc"));
    args.push(String::from_str("once"));
    args.push(String::from_str("/st"));
    args.push(time);
    args.push(String::from_str("/f"));
    let c = ProgramCall {
        program: String::from_str("schtasks"),
        args,
        stdin_line: None,
    };
    proof {
        let total = trigger_total_minutes(
            now_hour as int,
            now_minute as int,
            delay_minutes as int,
        );
        assert(c.args.deep_view() =~~= schtasks_args(
            task_name@,
            command@,
            hh_mm(total / 60, total % 60),
        ));
    }
    c
}

/// Two task-scheduler invocations built with different task names stay
/// independent: each argument list carries its own name in the `/tn` slot,
/// so the two lists differ and each request names its own task.
pub proof fn lemma_distinct_task_names(
    c1: ProgramCall,
    c2: ProgramCall,
    command1: Seq<char>,
    command2: Seq<char>,
    name1: Seq<char>,
    name2: Seq<char>,
    total1: int,
    total2: int,
)
    requires
        is_windows_call(c1, command1, name1, total1),
        is_windows_call(c2, command2, name2, total2),
        name1 != name2,
    ensures
        c1.args.deep_view()[2] == name1,
        c2.args.deep_view()[2] == name2,
        c1.args.deep_view() != c2.args.deep_view(),
{
    assert(c1.args.deep_view()[2] == name1);
    assert(c2.args.deep_view()[2] == name2);
}

/// Builds the complete scheduling invocation for `platform`: `command` is
/// passed through verbatim, `delay_minutes` as-is, and `task_name` names the
/// created task on the Windows-like branch and is ignored on the Unix-like
/// one. The Unix-like branch always succeeds; the Windows-like one reads the
/// local clock and fails only when that reading is unavailable.
pub fn schedule_call(
    platform: Platform,
    command: &str,
    delay_minutes: i64,
    task_name: &str,
) -> (r: Result<ProgramCall, ScheduleError>)
    ensures
        platform is Unix ==> (r matches Ok(c) && is_unix_call(
            c,
            command@,
            delay_minutes as int,
        )),
        platform is Windows ==> match r {
            Ok(c) => exists|h: int, m: int|
                0 <= h < 24 && 0 <= m < 60 && #[trigger] is_windows_call(
                    c,
                    command@,
                    task_name@,
                    trigger_total_minutes(h, m, delay_minutes as int),
                ),
            Err(e) => e is ClockUnavailable,
        },
{
    match platform {
        Platform::Unix => Ok(unix_schedule_call(command, delay_minutes)),
        Platform::Windows => match local_now_hour_minute() {
            Some((now_hour, now_minute)) => {
                let c = windows_schedule_call(
                    command,
                    delay_minutes,
                    task_name,
                    now_hour,
                    now_minute,
                );
                proof {
                    assert(is_windows_call(
                        c,
                        command@,
                        task_name@,
                        trigger_total_minutes(
                            now_hour as int,
                            now_minute as int,
                            delay_minutes as int,
                        ),
                    ));
                }
                Ok(c)
            },
            None => Err(ScheduleError::ClockUnavailable),
        },
    }
}

} // verus!
