//! Build the operating-system invocations that schedule a shell command to
//! run after a delay in minutes: an `at` job fed through standard input on
//! Unix-like hosts, a `schtasks` one-shot task on Windows-like hosts.
//!
//! The library assembles the full invocation — program name, argument list,
//! and the line piped to standard input where one is needed — and proves the
//! exact text of each part. Spawning the resulting process is left to the
//! caller.

mod clock;
pub mod decimal;
pub mod schedule;
pub mod trigger;

pub use crate::decimal::decimal_string;
pub use crate::schedule::{
    schedule_call, unix_schedule_call, windows_schedule_call, Platform, ProgramCall,
    ScheduleError,
};
pub use crate::trigger::trigger_time_string;
