//! The one reading the task-scheduler branch takes from the outside world:
//! the current local wall-clock time.

use vstd::prelude::*;

verus! {

/// Relies on `time::OffsetDateTime::now_local`, `hour` and `minute`: the
/// current local time of day, whose hour is in `0..24` and minute in `0..60`;
/// `None` when the local UTC offset cannot be determined.
#[verifier::external_body]
pub(crate) fn local_now_hour_minute() -> (r: Option<(u8, u8)>)
    ensures
        r matches Some(hm) ==> hm.0 < 24 && hm.1 < 60,
{
    match time::OffsetDateTime::now_local() {
        Ok(t) => Some((t.hour(), t.minute())),
        Err(_) => None,
    }
}

} // verus!
