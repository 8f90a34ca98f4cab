//! Wall-clock timestamps in the machine's local time, and their coarse
//! `YYYY-MM-DD HH:MM` rendering.
use chrono::{Datelike, Timelike};
use vstd::prelude::*;

use crate::text::{digit_char, nat_digits};

verus! {

/// Smallest year that the calendar arithmetic of `chrono` accepts.
pub const MIN_YEAR: i32 = -262143;

/// Largest year that the calendar arithmetic of `chrono` accepts.
pub const MAX_YEAR: i32 = 262142;

/// A local date and time, held as the calendar fields that the logic reads,
/// together with the offset from UTC that was in force.
#[derive(Clone, Copy, Debug, PartialEq, Eq, Structural)]
pub struct LocalDateTime {
    pub year: i32,
    pub month: u32,
    pub day: u32,
    pub hour: u32,
    pub minute: u32,
    pub second: u32,
    /// Above one billion only during a leap second (then `second` is 59).
    pub nanosecond: u32,
    /// Local time minus UTC, in seconds.
    pub offset_seconds: i32,
}

pub open spec fn is_leap_year(y: int) -> bool {
    (y % 4 == 0 && y % 100 != 0) || y % 400 == 0
}

/// Days in month `m` (1 to 12) of year `y` in the proleptic Gregorian calendar.
pub open spec fn days_in_month(y: int, m: int) -> int {
    if m == 2 {
        if is_leap_year(y) { 29 } else { 28 }
    } else if m == 4 || m == 6 || m == 9 || m == 11 {
        30
    } else {
        31
    }
}

impl LocalDateTime {
    /// The fields name a real instant of the calendar within `chrono`'s range.
    pub open spec fn wf(&self) -> bool {
        &&& MIN_YEAR <= self.year <= MAX_YEAR
        &&& 1 <= self.month <= 12
        &&& 1 <= self.day <= days_in_month(self.year as int, self.month as int)
        &&& self.hour < 24
        &&& self.minute < 60
        &&& self.second < 60
        &&& self.nanosecond < 2_000_000_000
        &&& (self.nanosecond >= 1_000_000_000 ==> self.second == 59)
        &&& -86_400 < self.offset_seconds < 86_400
    }

    /// Checks the invariant `wf`.
    pub fn is_valid(&self) -> (r: bool)
        ensures
            r == self.wf(),
    {
        let dim: u32 = if self.month == 2 {
            let y = self.year;
            if (y % 4 == 0 && y % 100 != 0) || y % 400 == 0 { 29 } else { 28 }
        } else if self.month == 4 || self.month == 6 || self.month == 9 || self.month == 11 {
            30
        } else {
            31
        };
        MIN_YEAR <= self.year && self.year <= MAX_YEAR && 1 <= self.month && self.month <= 12
            && 1 <= self.day && self.day <= dim && self.hour < 24 && self.minute < 60
            && self.second < 60 && self.nanosecond < 2_000_000_000
            && (self.nanosecond < 1_000_000_000 || self.second == 59)
            && -86_400 < self.offset_seconds && self.offset_seconds < 86_400
    }
}

/// Two decimal digits of `n < 100`, with a leading zero.
pub open spec fn two_digits(n: nat) -> Seq<char> {
    seq![digit_char(n / 10), digit_char(n % 10)]
}

/// Decimal digits of `n`, padded with zeros to at least four.
pub open spec fn four_digits(n: nat) -> Seq<char> {
    if n < 10 {
        seq!['0', '0', '0'] + nat_digits(n)
    } else if n < 100 {
        seq!['0', '0'] + nat_digits(n)
    } else if n < 1000 {
        seq!['0'] + nat_digits(n)
    } else {
        nat_digits(n)
    }
}

/// The year as `%Y` writes it: four digits for years 0 to 9999, else a sign
/// followed by at least four digits.
pub open spec fn year_text(y: int) -> Seq<char> {
    if 0 <= y <= 9999 {
        four_digits(y as nat)
    } else if y < 0 {
        seq!['-'] + four_digits((-y) as nat)
    } else {
        seq!['+'] + four_digits(y as nat)
    }
}

/// `YYYY-MM-DD HH:MM` of the local wall clock; seconds and below are dropped.
pub open spec fn minute_stamp(t: LocalDateTime) -> Seq<char> {
    year_text(t.year as int) + seq!['-'] + two_digits(t.month as nat) + seq!['-']
        + two_digits(t.day as nat) + seq![' '] + two_digits(t.hour as nat) + seq![':']
        + two_digits(t.minute as nat)
}

/// Relies on `chrono::NaiveDate::from_ymd_opt`, `NaiveDate::and_hms_nano_opt`
/// and `NaiveDateTime::format` with the pattern `%Y-%m-%d %H:%M`: a valid
/// date and time is accepted and written as `minute_stamp` states.
#[verifier::external_body]
fn chrono_minute_text(t: &LocalDateTime) -> (r: Option<String>)
    requires
        t.wf(),
    ensures
        r is Some,
        r->0@ == minute_stamp(*t),
{
    let date = chrono::NaiveDate::from_ymd_opt(t.year, t.month, t.day)?;
    let at = date.and_hms_nano_opt(t.hour, t.minute, t.second, t.nanosecond)?;
    Some(at.format("%Y-%m-%d %H:%M").to_string())
}

/// Relies on `chrono::Local::now` and the field accessors of the
/// `DateTime` it returns: the fields always form a valid local time.
#[verifier::external_body]
pub(crate) fn local_now() -> (r: LocalDateTime)
    ensures
        r.wf(),
{
    let now = chrono::Local::now();
    LocalDateTime {
        year: now.year(),
        month: now.month(),
        day: now.day(),
        hour: now.hour(),
        minute: now.minute(),
        second: now.second(),
        nanosecond: now.nanosecond(),
        offset_seconds: now.offset().local_minus_utc(),
    }
}

/// The timestamp as it appears in a notification.
pub fn format_minute(t: &LocalDateTime) -> (r: String)
    requires
        t.wf(),
    ensures
        r@ == minute_stamp(*t),
{
    match chrono_minute_text(t) {
        Some(s) => s,
        None => String::new(),
    }
}

/// Two times that agree up to the minute render identically: the rendering
/// keeps minutes and drops seconds, fractions of a second and the offset.
pub proof fn lemma_stamp_ignores_seconds(a: LocalDateTime, b: LocalDateTime)
    requires
        a.year == b.year,
        a.month == b.month,
        a.day == b.day,
        a.hour == b.hour,
        a.minute == b.minute,
    ensures
        minute_stamp(a) == minute_stamp(b),
{
}

proof fn lemma_digits_len(n: nat)
    ensures
        n < 10 ==> nat_digits(n).len() == 1,
        10 <= n < 100 ==> nat_digits(n).len() == 2,
        100 <= n < 1000 ==> nat_digits(n).len() == 3,
        1000 <= n < 10000 ==> nat_digits(n).len() == 4,
    decreases n,
{
    if n >= 10 {
        lemma_digits_len(n / 10);
    }
}

/// For years 0 to 9999 the rendering is exactly `YYYY-MM-DD HH:MM`, sixteen
/// characters long.
pub proof fn lemma_stamp_length(t: LocalDateTime)
    requires
        t.wf(),
        0 <= t.year <= 9999,
    ensures
        minute_stamp(t).len() == 16,
        year_text(t.year as int).len() == 4,
{
    lemma_digits_len(t.year as nat);
}

} // verus!
