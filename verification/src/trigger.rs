//! Trigger-time arithmetic for the task-scheduler branch: the current local
//! time plus the delay, wrapped around midnight, rendered as `HH:MM`.

use vstd::prelude::*;
use vstd::arithmetic::div_mod::{
    lemma_add_mod_noop, lemma_fundamental_div_mod, lemma_fundamental_div_mod_converse,
    lemma_mod_bound, lemma_small_mod,
};

use crate::decimal::{digit_char, digit_str, digit_value};

verus! {

/// Minutes past midnight of the trigger time: the given time of day plus
/// `delay` minutes, wrapped around the day. Always in `0..1440`.
pub open spec fn trigger_total_minutes(hour: int, minute: int, delay: int) -> int {
    (hour * 60 + minute + delay) % 1440
}

/// Two zero-padded decimal digits for `n`, meaningful for `0 <= n < 100`.
pub open spec fn two_digits(n: int) -> Seq<char> {
    seq![digit_char(n / 10), digit_char(n % 10)]
}

/// The `HH:MM` rendering of an hour and a minute, both zero-padded.
pub open spec fn hh_mm(hour: int, minute: int) -> Seq<char> {
    two_digits(hour) + seq![':'] + two_digits(minute)
}

/// `delay` reduced into `0..1440` with the sign respected: the result is
/// congruent to `delay` modulo a day.
fn reduce_delay(delay: i64) -> (r: u64)
    ensures
        r == delay as int % 1440,
{
    if delay >= 0 {
        (delay as u64) % 1440
    } else {
        let x: u64 = (-(delay + 1)) as u64;
        let r: u64 = 1439 - x % 1440;
        proof {
            let xi = x as int;
            let q = xi / 1440;
            let m = xi % 1440;
            lemma_fundamental_div_mod(xi, 1440);
            lemma_mod_bound(xi, 1440);
            assert(delay as int == 1440 * (-q - 1) + (1439 - m)) by {
                assert(delay as int == -xi - 1);
                assert(xi == 1440 * q + m);
            };
            lemma_fundamental_div_mod_converse(delay as int, 1440, -q - 1, 1439 - m);
        }
        r
    }
}

/// The trigger time as an hour and a minute: the given time of day plus
/// `delay` minutes, wrapped around midnight.
pub fn add_minutes_wrapped(hour: u8, minute: u8, delay: i64) -> (r: (u8, u8))
    requires
        hour < 24,
        minute < 60,
    ensures
        r.0 == trigger_total_minutes(hour as int, minute as int, delay as int) / 60,
        r.1 == trigger_total_minutes(hour as int, minute as int, delay as int) % 60,
        r.0 < 24,
        r.1 < 60,
{
    let reduced: u64 = reduce_delay(delay);
    let now_total: u64 = hour as u64 * 60 + minute as u64;
    let total: u64 = (now_total + reduced) % 1440;
    proof {
        let a = now_total as int;
        let d = delay as int;
        lemma_add_mod_noop(a, d, 1440);
        lemma_small_mod(now_total as nat, 1440);
        lemma_add_mod_noop(a, d % 1440, 1440);
        lemma_small_mod(((a + d % 1440) % 1440) as nat, 1440);
        assert(total == trigger_total_minutes(hour as int, minute as int, d));
        lemma_mod_bound(a + d, 1440);
    }
    ((total / 60) as u8, (total % 60) as u8)
}

/// The trigger-time rendering always has the `HH:MM` shape: five characters
/// with a colon in the middle, whose digit pairs read back as an hour in
/// `0..24` and a minute in `0..60` — namely the time of day plus the delay,
/// wrapped around midnight, for any delay whatsoever.
pub proof fn lemma_trigger_time_shape(hour: int, minute: int, delay: int)
    requires
        0 <= hour < 24,
        0 <= minute < 60,
    ensures
        ({
            let total = trigger_total_minutes(hour, minute, delay);
            let s = hh_mm(total / 60, total % 60);
            &&& 0 <= total / 60 < 24
            &&& 0 <= total % 60 < 60
            &&& s.len() == 5
            &&& s[2] == ':'
            &&& 0 <= digit_value(s[0]) <= 2
            &&& 0 <= digit_value(s[1]) <= 9
            &&& 0 <= digit_value(s[3]) <= 5
            &&& 0 <= digit_value(s[4]) <= 9
            &&& digit_value(s[0]) * 10 + digit_value(s[1]) == total / 60
            &&& digit_value(s[3]) * 10 + digit_value(s[4]) == total % 60
        }),
{
    let total = trigger_total_minutes(hour, minute, delay);
    lemma_mod_bound(hour * 60 + minute + delay, 1440);
    lemma_mod_bound(total, 60);
    let h = total / 60;
    let m = total % 60;
    assert(0 <= h < 24) by {
        lemma_fundamental_div_mod(total, 60);
    };
    assert(digit_value(digit_char(h / 10)) == h / 10 && digit_value(digit_char(h % 10)) == h
        % 10) by {
        lemma_mod_bound(h, 10);
        lemma_fundamental_div_mod(h, 10);
    };
    assert(digit_value(digit_char(m / 10)) == m / 10 && digit_value(digit_char(m % 10)) == m
        % 10) by {
        lemma_mod_bound(m, 10);
        lemma_fundamental_div_mod(m, 10);
    };
    lemma_fundamental_div_mod(h, 10);
    lemma_fundamental_div_mod(m, 10);
}

/// Renders an hour and a minute as zero-padded 24-hour `HH:MM`.
pub fn format_hh_mm(hour: u8, minute: u8) -> (s: String)
    requires
        hour < 24,
        minute < 60,
    ensures
        s@ == hh_mm(hour as int, minute as int),
{
    let mut s = String::new();
    s.append(digit_str(hour as u64 / 10));
    s.append(digit_str(hour as u64 % 10));
    s.append(":");
    s.append(digit_str(minute as u64 / 10));
    s.append(digit_str(minute as u64 % 10));
    proof {
        reveal_strlit(":");
        assert(s@ =~= hh_mm(hour as int, minute as int));
    }
    s
}

/// The `HH:MM` string of the trigger time: the given time of day plus
/// `delay` minutes, wrapped around midnight.
pub fn trigger_time_string(hour: u8, minute: u8, delay: i64) -> (s: String)
    requires
        hour < 24,
        minute < 60,
    ensures
        s@ == ({
            let total = trigger_total_minutes(hour as int, minute as int, delay as int);
            hh_mm(total / 60, total % 60)
        }),
{
    let (h, m) = add_minutes_wrapped(hour, minute, delay);
    format_hh_mm(h, m)
}

} // verus!
