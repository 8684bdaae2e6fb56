use execute_command_in_x_minutes::{
    decimal_string, schedule_call, trigger_time_string, unix_schedule_call,
    windows_schedule_call, Platform, ScheduleError,
};

fn is_hh_mm(s: &str) -> bool {
    let b: Vec<char> = s.chars().collect();
    if b.len() != 5 || b[2] != ':' {
        return false;
    }
    let digits = [b[0], b[1], b[3], b[4]];
    if !digits.iter().all(|c| c.is_ascii_digit()) {
        return false;
    }
    let hour = (b[0] as u32 - '0' as u32) * 10 + (b[1] as u32 - '0' as u32);
    let minute = (b[3] as u32 - '0' as u32) * 10 + (b[4] as u32 - '0' as u32);
    hour < 24 && minute < 60
}

#[test]
fn unix_pipe_payload_is_command_plus_newline() {
    let c = unix_schedule_call("echo hello", 5);
    assert_eq!(c.program, "at");
    assert_eq!(c.args, vec!["now", "+", "5", "minute"]);
    assert_eq!(c.stdin_line.as_deref(), Some("echo hello\n"));
}

#[test]
fn unix_payload_keeps_shell_metacharacters_verbatim() {
    let command = "a; rm -rf \"$HOME\" | x && y > z";
    let c = unix_schedule_call(command, 1);
    assert_eq!(c.stdin_line.as_deref(), Some("a; rm -rf \"$HOME\" | x && y > z\n"));
}

#[test]
fn unix_zero_and_negative_delays_pass_through() {
    let zero = unix_schedule_call("echo hi", 0);
    assert_eq!(zero.args, vec!["now", "+", "0", "minute"]);
    let negative = unix_schedule_call("echo hi", -3);
    assert_eq!(negative.args, vec!["now", "+", "-3", "minute"]);
}

#[test]
fn decimal_rendering_matches_standard_formatting() {
    let cases: Vec<i64> = vec![0, 1, 5, 9, 10, 42, 99, 100, 1439, -1, -10, -1440, i64::MAX, i64::MIN];
    for v in cases {
        assert_eq!(decimal_string(v), v.to_string());
    }
}

#[test]
fn windows_call_names_task_and_wraps_trigger_time() {
    let c = windows_schedule_call("dir", 5, "T1", 23, 58);
    assert_eq!(c.program, "schtasks");
    assert_eq!(
        c.args,
        vec![
            "/create",
            "/tn",
            "T1",
            "/tr",
            "cmd /C start \"\" /MIN \"cmd\" \"/C dir\"",
            "/sc",
            "once",
            "/st",
            "00:03",
            "/f",
        ]
    );
    assert!(c.stdin_line.is_none());
}

#[test]
fn trigger_time_wraps_across_hour_and_day_boundaries() {
    assert_eq!(trigger_time_string(23, 58, 5), "00:03");
    assert_eq!(trigger_time_string(23, 59, 1), "00:00");
    assert_eq!(trigger_time_string(0, 0, 0), "00:00");
    assert_eq!(trigger_time_string(12, 30, 90), "14:00");
    assert_eq!(trigger_time_string(9, 5, 0), "09:05");
    assert_eq!(trigger_time_string(0, 0, -5), "23:55");
    assert_eq!(trigger_time_string(10, 0, -1440), "10:00");
    assert_eq!(trigger_time_string(10, 0, 2880), "10:00");
    // The extreme delays reduce modulo a day: ten o'clock plus i64::MAX
    // minutes lands on 04:07, plus i64::MIN minutes on 15:52.
    assert_eq!(trigger_time_string(10, 0, i64::MAX), "04:07");
    assert_eq!(trigger_time_string(10, 0, i64::MIN), "15:52");
}

#[test]
fn distinct_task_names_make_independent_requests() {
    let first = windows_schedule_call("dir", 5, "T1", 8, 15);
    let second = windows_schedule_call("dir", 5, "T2", 8, 15);
    assert_eq!(first.args[2], "T1");
    assert_eq!(second.args[2], "T2");
    assert_ne!(first.args, second.args);
}

#[test]
fn dispatcher_unix_branch_always_succeeds_and_ignores_task_name() {
    let c = schedule_call(Platform::Unix, "echo hi", 2, "ignored").unwrap();
    assert_eq!(c.program, "at");
    assert_eq!(c.args, vec!["now", "+", "2", "minute"]);
    assert_eq!(c.stdin_line.as_deref(), Some("echo hi\n"));
    assert!(c.args.iter().all(|a| a != "ignored"));
}

#[test]
fn dispatcher_windows_branch_uses_clock_or_reports_it() {
    match schedule_call(Platform::Windows, "dir", 5, "T1") {
        Ok(c) => {
            assert_eq!(c.program, "schtasks");
            assert_eq!(c.args.len(), 10);
            assert_eq!(c.args[2], "T1");
            assert!(is_hh_mm(&c.args[8]));
            assert!(c.stdin_line.is_none());
        }
        Err(e) => assert_eq!(e, ScheduleError::ClockUnavailable),
    }
}

#[test]
fn clock_error_has_a_description() {
    assert_eq!(
        ScheduleError::ClockUnavailable.message(),
        "the local wall-clock time could not be determined"
    );
}
