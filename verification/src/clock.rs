//! Times of day: reading one from text, and the minutes until the next
//! occurrence of one.

use crate::time::LocalMoment;
use vstd::prelude::*;

verus! {

/// Minutes of a day.
pub const MINUTES_PER_DAY: i64 = 1440;

/// The format of a time of day: hour and minute.
pub open spec fn clock_format() -> Seq<char> {
    "%H:%M"@
}

/// A time of day, to the minute.
#[derive(Debug, Clone, Copy, PartialEq, Eq, Structural)]
pub struct ClockTime {
    pub hour: u32,
    pub minute: u32,
}

impl ClockTime {
    pub open spec fn wf(self) -> bool {
        self.hour < 24 && self.minute < 60
    }

    /// Minutes since midnight.
    pub open spec fn minute_of_day(self) -> int {
        self.hour * 60 + self.minute
    }
}

/// The hour and the minute of the time that
/// `chrono::NaiveTime::parse_from_str` reads from `text` in `format`; `None`
/// where it refuses the text.
pub uninterp spec fn parsed_time(text: Seq<char>, format: Seq<char>) -> Option<(u32, u32)>;

/// `chrono::NaiveTime::parse_from_str`, read through `Timelike::hour` and
/// `Timelike::minute`. The result is named, not described.
#[verifier::external_body]
fn parse_naive_time(text: &str, format: &str) -> (r: Option<(u32, u32)>)
    ensures
        r == parsed_time(text@, format@),
{
    chrono::NaiveTime::parse_from_str(text, format).ok().map(
        |t| (chrono::Timelike::hour(&t), chrono::Timelike::minute(&t)),
    )
}

/// The time of day that a parse gave, where it gave one within a day.
pub open spec fn clock_of(parsed: Option<(u32, u32)>) -> Option<ClockTime> {
    match parsed {
        Some((hour, minute)) => if hour < 24 && minute < 60 {
            Some(ClockTime { hour, minute })
        } else {
            None
        },
        None => None,
    }
}

/// The time of day that a parse gave, where it gave one within a day.
pub fn checked_clock(parsed: Option<(u32, u32)>) -> (r: Option<ClockTime>)
    ensures
        r == clock_of(parsed),
        r matches Some(t) ==> t.wf(),
{
    match parsed {
        Some((hour, minute)) => {
            if hour < 24 && minute < 60 {
                Some(ClockTime { hour, minute })
            } else {
                None
            }
        },
        None => None,
    }
}

/// Reads a time of day written as hour and minute.
pub fn parse_time(time_str: &str) -> (r: Option<ClockTime>)
    ensures
        r == clock_of(parsed_time(time_str@, clock_format())),
        r matches Some(t) ==> t.wf(),
{
    checked_clock(parse_naive_time(time_str, "%H:%M"))
}

/// Minutes from `now` to the next occurrence of the time of day `target`:
/// what is left until it today where it is still to come, else until it
/// tomorrow; a full day where it is the minute of `now`.
pub open spec fn minutes_to(target: ClockTime, now: LocalMoment) -> int {
    let diff = target.minute_of_day() - (now.hour * 60 + now.minute);
    if diff > 0 {
        diff
    } else {
        diff + MINUTES_PER_DAY
    }
}

/// Minutes from `now` to the next occurrence of the time of day `target`.
pub fn minutes_from(target: &ClockTime, now: &LocalMoment) -> (minutes: i64)
    requires
        target.wf(),
        now.wf(),
    ensures
        minutes == minutes_to(*target, *now),
        0 < minutes <= MINUTES_PER_DAY,
{
    let target_minutes: i64 = (target.hour as i64) * 60 + target.minute as i64;
    let now_minutes: i64 = (now.hour as i64) * 60 + now.minute as i64;
    let diff: i64 = target_minutes - now_minutes;
    if diff > 0 {
        diff
    } else {
        diff + MINUTES_PER_DAY
    }
}

/// Minutes from `now` to the next occurrence of the time of day written in
/// `time_str`; `None` where the text is not a time of day.
pub fn minutes_until(time_str: &str, now: &LocalMoment) -> (r: Option<i64>)
    requires
        now.wf(),
    ensures
        r == match clock_of(parsed_time(time_str@, clock_format())) {
            Some(target) => Some(minutes_to(target, *now) as i64),
            None => None,
        },
{
    match parse_time(time_str) {
        Some(target) => Some(minutes_from(&target, now)),
        None => None,
    }
}

/// The time of day of `now`, written `HH:MM`.
pub fn current_time_str(now: &LocalMoment) -> (text: String)
    requires
        now.wf(),
    ensures
        text@ == now.clock_text(),
{
    now.clock_string()
}

} // verus!
