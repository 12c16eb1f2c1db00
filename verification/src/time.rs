//! Instants, calendar dates and wall-clock moments as plain values, together
//! with the few calendar computations that are delegated to `chrono`. The
//! clock is read by the host, which hands the instant in.

use crate::text::digit_str;
use vstd::prelude::*;
use vstd::string::*;

verus! {

/// First year that `chrono` can represent.
pub const MIN_YEAR: i32 = -262143;

/// Last year that `chrono` can represent.
pub const MAX_YEAR: i32 = 262142;

/// Leap years of the proleptic Gregorian calendar.
pub open spec fn is_leap_year(year: int) -> bool {
    year % 4 == 0 && (year % 100 != 0 || year % 400 == 0)
}

/// Number of days of a month of the proleptic Gregorian calendar.
pub open spec fn days_in_month(year: int, month: int) -> int {
    if month == 2 {
        if is_leap_year(year) { 29 } else { 28 }
    } else if month == 4 || month == 6 || month == 9 || month == 11 {
        30
    } else {
        31
    }
}

/// A calendar date (year, month, day of month).
#[derive(Clone, Copy, Debug, PartialEq, Eq, Structural)]
pub struct CalendarDate {
    pub year: i32,
    pub month: u32,
    pub day: u32,
}

impl CalendarDate {
    /// The date exists in the proleptic Gregorian calendar and its year is
    /// one that `chrono` represents.
    pub open spec fn wf(self) -> bool {
        &&& MIN_YEAR <= self.year <= MAX_YEAR
        &&& 1 <= self.month <= 12
        &&& 1 <= self.day <= days_in_month(self.year as int, self.month as int)
    }
}

/// `chrono::NaiveDate::from_ymd_opt`, read back through `Datelike`: a date is
/// accepted exactly when it exists in the proleptic Gregorian calendar and
/// its year lies between `MIN_YEAR` and `MAX_YEAR`; the accepted date is
/// returned unchanged.
#[verifier::external_body]
fn date_from_ymd(year: i32, month: u32, day: u32) -> (r: Option<CalendarDate>)
    ensures
        r == (if (CalendarDate { year, month, day }).wf() {
            Some(CalendarDate { year, month, day })
        } else {
            None
        }),
{
    chrono::NaiveDate::from_ymd_opt(year, month, day).map(
        |d| CalendarDate {
            year: chrono::Datelike::year(&d),
            month: chrono::Datelike::month(&d),
            day: chrono::Datelike::day(&d),
        },
    )
}

/// The last day of a month: the number of its days, for a month of a year
/// that `chrono` represents; 28 for anything else that is asked for.
pub open spec fn month_end(year: int, month: int) -> int {
    if 1 <= month <= 12 && MIN_YEAR <= year <= MAX_YEAR {
        days_in_month(year, month)
    } else {
        28
    }
}

/// Last day of the given month: the latest day of it that exists.
pub fn get_last_day_of_month(year: i32, month: u32) -> (last: u8)
    ensures
        last == month_end(year as int, month as int),
        1 <= month <= 12 && MIN_YEAR <= year <= MAX_YEAR ==> last == days_in_month(
            year as int,
            month as int,
        ),
        28 <= last <= 31,
{
    if date_from_ymd(year, month, 31).is_some() {
        31
    } else if date_from_ymd(year, month, 30).is_some() {
        30
    } else if date_from_ymd(year, month, 29).is_some() {
        29
    } else {
        28
    }
}

/// Earliest second, counted from the Unix epoch, that `chrono` represents
/// (the first second of `MIN_YEAR`).
pub const MIN_SECS: i64 = -8_334_601_228_800;

/// Latest second, counted from the Unix epoch, that `chrono` represents
/// (the last second of `MAX_YEAR`).
pub const MAX_SECS: i64 = 8_210_266_876_799;

/// An instant on the UTC time line: whole seconds since the Unix epoch and
/// the nanoseconds within that second.
#[derive(Clone, Copy, Debug, PartialEq, Eq, Structural)]
pub struct Timestamp {
    pub secs: i64,
    pub nanos: u32,
}

impl Timestamp {
    /// The instant lies in the range that `chrono` represents. An instant read
    /// from a clock always does.
    pub open spec fn wf(self) -> bool {
        MIN_SECS <= self.secs <= MAX_SECS
    }

    /// The instant is an ordinary one: at least a day from either end of the
    /// representable range, with nanoseconds below one billion. Such an
    /// instant has a local moment in every time zone.
    pub open spec fn is_ordinary(self) -> bool {
        MIN_SECS + 86_400 <= self.secs <= MAX_SECS - 86_400 && self.nanos < 1_000_000_000
    }

    /// `self` is not later than `other`.
    pub open spec fn at_or_before(self, other: Timestamp) -> bool {
        self.secs < other.secs || (self.secs == other.secs && self.nanos <= other.nanos)
    }

    /// The instant `minutes` minutes after `self` (before it, for a negative
    /// number).
    pub open spec fn plus_minutes(self, minutes: int) -> Timestamp {
        Timestamp { secs: (self.secs + 60 * minutes) as i64, nanos: self.nanos }
    }

    /// The instant `minutes` minutes after `self` is not later than `now`.
    pub open spec fn elapsed(self, minutes: int, now: Timestamp) -> bool {
        self.secs + 60 * minutes < now.secs || (self.secs + 60 * minutes == now.secs && self.nanos
            <= now.nanos)
    }

    /// Builds an instant, refusing seconds outside the representable range.
    pub fn new(secs: i64, nanos: u32) -> (r: Option<Timestamp>)
        ensures
            r == (if MIN_SECS <= secs <= MAX_SECS {
                Some(Timestamp { secs, nanos })
            } else {
                None
            }),
    {
        if MIN_SECS <= secs && secs <= MAX_SECS {
            Some(Timestamp { secs, nanos })
        } else {
            None
        }
    }

    pub fn is_at_or_before(&self, other: &Timestamp) -> (b: bool)
        ensures
            b == self.at_or_before(*other),
    {
        self.secs < other.secs || (self.secs == other.secs && self.nanos <= other.nanos)
    }

    pub fn add_minutes(&self, minutes: i32) -> (t: Timestamp)
        requires
            self.wf(),
        ensures
            t == self.plus_minutes(minutes as int),
            t.secs == self.secs + 60 * minutes,
            t.nanos == self.nanos,
    {
        let delta: i64 = 60 * (minutes as i64);
        Timestamp { secs: self.secs + delta, nanos: self.nanos }
    }

    pub fn has_elapsed(&self, minutes: i32, now: &Timestamp) -> (b: bool)
        ensures
            b == self.elapsed(minutes as int, *now),
    {
        let due: i128 = (self.secs as i128) + 60 * (minutes as i128);
        let current: i128 = now.secs as i128;
        due < current || (due == current && self.nanos <= now.nanos)
    }
}

/// Adding minutes to a valid instant agrees with `elapsed`: the sum is not
/// later than `now` exactly when the minutes have elapsed at `now`.
pub proof fn lemma_plus_minutes_elapsed(start: Timestamp, minutes: int, now: Timestamp)
    requires
        start.wf(),
        i32::MIN <= minutes <= i32::MAX,
    ensures
        start.plus_minutes(minutes).at_or_before(now) == start.elapsed(minutes, now),
{
}

/// The character of a decimal digit.
pub open spec fn digit_char(d: int) -> char {
    (48 + d) as char
}

/// A time of day as the five characters `HH:MM`.
pub open spec fn clock_text(hour: int, minute: int) -> Seq<char> {
    seq![
        digit_char(hour / 10),
        digit_char(hour % 10),
        ':',
        digit_char(minute / 10),
        digit_char(minute % 10),
    ]
}

/// Two times of day within a day have the same text only if they are the same.
pub proof fn lemma_clock_text_injective(h1: int, m1: int, h2: int, m2: int)
    requires
        0 <= h1 < 24,
        0 <= m1 < 60,
        0 <= h2 < 24,
        0 <= m2 < 60,
        clock_text(h1, m1) == clock_text(h2, m2),
    ensures
        h1 == h2,
        m1 == m2,
{
    let a = clock_text(h1, m1);
    let b = clock_text(h2, m2);
    assert(a[0] == b[0] && a[1] == b[1] && a[3] == b[3] && a[4] == b[4]);
    assert(digit_char(h1 / 10) as int == 48 + h1 / 10);
    assert(digit_char(h2 / 10) as int == 48 + h2 / 10);
    assert(digit_char(h1 % 10) as int == 48 + h1 % 10);
    assert(digit_char(h2 % 10) as int == 48 + h2 % 10);
    assert(digit_char(m1 / 10) as int == 48 + m1 / 10);
    assert(digit_char(m2 / 10) as int == 48 + m2 / 10);
    assert(digit_char(m1 % 10) as int == 48 + m1 % 10);
    assert(digit_char(m2 % 10) as int == 48 + m2 % 10);
}

/// A moment of local wall-clock time, as the fields that recurrence rules
/// read. `weekday` counts from Monday = 1 to Sunday = 7.
#[derive(Clone, Copy, Debug, PartialEq, Eq, Structural)]
pub struct LocalMoment {
    pub year: i32,
    pub month: u32,
    pub day: u32,
    pub hour: u32,
    pub minute: u32,
    pub second: u32,
    pub weekday: u8,
}

impl LocalMoment {
    /// Every field is in its range and the date exists. The weekday is not
    /// held to the date.
    pub open spec fn wf(self) -> bool {
        &&& self.date().wf()
        &&& self.hour < 24
        &&& self.minute < 60
        &&& self.second < 60
        &&& 1 <= self.weekday <= 7
    }

    pub open spec fn date(self) -> CalendarDate {
        CalendarDate { year: self.year, month: self.month, day: self.day }
    }

    /// The time of day as `HH:MM`.
    pub open spec fn clock_text(self) -> Seq<char> {
        clock_text(self.hour as int, self.minute as int)
    }

    /// Builds a moment from its fields, refusing any that is out of range and
    /// any date that does not exist.
    pub fn new(
        year: i32,
        month: u32,
        day: u32,
        hour: u32,
        minute: u32,
        second: u32,
        weekday: u8,
    ) -> (r: Option<LocalMoment>)
        ensures
            r == (if (LocalMoment { year, month, day, hour, minute, second, weekday }).wf() {
                Some(LocalMoment { year, month, day, hour, minute, second, weekday })
            } else {
                None
            }),
    {
        if hour < 24 && minute < 60 && second < 60 && 1 <= weekday && weekday <= 7 {
            match date_from_ymd(year, month, day) {
                Some(_) => Some(LocalMoment { year, month, day, hour, minute, second, weekday }),
                None => None,
            }
        } else {
            None
        }
    }

    pub fn calendar_date(&self) -> (d: CalendarDate)
        ensures
            d == self.date(),
    {
        CalendarDate { year: self.year, month: self.month, day: self.day }
    }

    /// The time of day, written `HH:MM`.
    pub fn clock_string(&self) -> (text: String)
        requires
            self.wf(),
        ensures
            text@ == self.clock_text(),
    {
        let mut text = String::new();
        text.append(digit_str((self.hour / 10) as u64));
        text.append(digit_str((self.hour % 10) as u64));
        text.append(":");
        text.append(digit_str((self.minute / 10) as u64));
        text.append(digit_str((self.minute % 10) as u64));
        proof {
            reveal_strlit(":");
            assert(text@ =~= self.clock_text());
        }
        text
    }

    /// Whether `text` is this moment's time of day, written `HH:MM`.
    pub fn shows(&self, text: &str) -> (b: bool)
        requires
            self.wf(),
        ensures
            b == (text@ == self.clock_text()),
    {
        if text.unicode_len() != 5 {
            return false;
        }
        let h1: char = (48u8 + (self.hour / 10) as u8) as char;
        let h0: char = (48u8 + (self.hour % 10) as u8) as char;
        let m1: char = (48u8 + (self.minute / 10) as u8) as char;
        let m0: char = (48u8 + (self.minute % 10) as u8) as char;
        let b = text.get_char(0) == h1 && text.get_char(1) == h0 && text.get_char(2) == ':'
            && text.get_char(3) == m1 && text.get_char(4) == m0;
        proof {
            if b {
                assert(text@ =~= self.clock_text());
            }
        }
        b
    }
}

/// Leap years among the years from 1 up to, and without, `year`.
pub open spec fn leap_years_before(year: int) -> int {
    (year - 1) / 4 - (year - 1) / 100 + (year - 1) / 400
}

/// Days of the years from 1 up to, and without, `year`.
pub open spec fn days_before_year(year: int) -> int {
    365 * (year - 1) + leap_years_before(year)
}

/// Days of the months of `year` before `month`.
pub open spec fn days_before_month(year: int, month: int) -> int
    decreases month,
{
    if month <= 1 {
        0
    } else {
        days_before_month(year, month - 1) + days_in_month(year, month - 1)
    }
}

/// The number of a calendar day, counted from the first day of 1970.
pub open spec fn day_number(date: CalendarDate) -> int {
    days_before_year(date.year as int) + days_before_month(date.year as int, date.month as int)
        + date.day - 1 - 719_162
}

/// The number of the day of UTC on which an instant falls.
pub open spec fn utc_day(at: Timestamp) -> int {
    (at.secs as int) / 86_400
}

/// The date is the date of UTC of the instant or a neighbour of it, as every
/// local date of the instant is: no zone is a day or more from UTC.
pub open spec fn is_near(date: CalendarDate, at: Timestamp) -> bool {
    utc_day(at) - 1 <= day_number(date) <= utc_day(at) + 1
}

impl CalendarDate {
    /// The number of the day, counted from the first day of 1970.
    pub fn day_number(&self) -> (n: i64)
        requires
            self.wf(),
        ensures
            n == day_number(*self),
    {
        // Years from -400_000 on, so that the divisions are of natural numbers.
        let shifted: u64 = (self.year as i64 - 1 + 400_000) as u64;
        let leaps: i64 = (shifted / 4) as i64 - 100_000 - ((shifted / 100) as i64 - 4_000) + ((shifted
            / 400) as i64 - 1_000);
        assert(leaps == leap_years_before(self.year as int));
        let years: i64 = 365 * (self.year as i64 - 1) + leaps;
        let mut months: i64 = 0;
        let mut m: u32 = 1;
        while m < self.month
            invariant
                1 <= m <= self.month <= 12,
                MIN_YEAR <= self.year <= MAX_YEAR,
                months == days_before_month(self.year as int, m as int),
                0 <= months <= 31 * (m - 1),
            decreases self.month - m,
        {
            months = months + get_last_day_of_month(self.year, m) as i64;
            m = m + 1;
        }
        years + months + self.day as i64 - 1 - 719_162
    }
}

/// `chrono::DateTime::from_timestamp` followed by `with_timezone(&Local)`, read
/// through `Datelike` and `Timelike`: the wall-clock fields of an instant in
/// the machine's time zone, `None` where `chrono` cannot represent the
/// instant. Which fields come back is the zone's to say. What holds in every
/// zone is claimed for an ordinary instant: `from_timestamp` accepts it; the
/// fields are a date that exists and a time of day within the day, with the
/// weekday from 1 to 7; and, since `chrono` keeps every offset shorter than
/// a day, the year is one that `chrono` represents and the date is the date
/// of UTC of the instant or a neighbour of it.
#[verifier::external_body]
fn local_fields(secs: i64, nanos: u32) -> (r: Option<LocalMoment>)
    ensures
        (Timestamp { secs, nanos }).is_ordinary() ==> match r {
            Some(m) => m.wf() && is_near(m.date(), Timestamp { secs, nanos }),
            None => false,
        },
{
    chrono::DateTime::from_timestamp(secs, nanos).map(
        |utc| {
            let t = utc.with_timezone(&chrono::Local);
            LocalMoment {
                year: chrono::Datelike::year(&t),
                month: chrono::Datelike::month(&t),
                day: chrono::Datelike::day(&t),
                hour: chrono::Timelike::hour(&t),
                minute: chrono::Timelike::minute(&t),
                second: chrono::Timelike::second(&t),
                weekday: chrono::Datelike::weekday(&t).number_from_monday() as u8,
            }
        },
    )
}

/// The number of the day of UTC on which a representable instant falls.
fn utc_day_of(at: &Timestamp) -> (n: i64)
    requires
        at.wf(),
    ensures
        n == utc_day(*at),
{
    // Seconds from the first representable one, which begins a day.
    let since: u64 = (at.secs - MIN_SECS) as u64;
    (since / 86_400) as i64 - 96_465_292
}

/// The moment that the fields of a zone conversion give for the instant
/// `at`: the fields themselves where they are valid and their date is the
/// date of UTC of the instant or a neighbour of it, and none else.
pub open spec fn checked_moment(fields: Option<LocalMoment>, at: Timestamp) -> Option<LocalMoment> {
    match fields {
        Some(f) => if f.wf() && is_near(f.date(), at) {
            Some(f)
        } else {
            None
        },
        None => None,
    }
}

/// The moment that the fields of a zone conversion give for the instant
/// `at`.
pub fn moment_of(fields: Option<LocalMoment>, at: &Timestamp) -> (r: Option<LocalMoment>)
    requires
        at.wf(),
    ensures
        r == checked_moment(fields, *at),
{
    let valid = match fields {
        Some(f) => LocalMoment::new(f.year, f.month, f.day, f.hour, f.minute, f.second, f.weekday),
        None => None,
    };
    match valid {
        Some(m) => {
            let local_day = m.calendar_date().day_number();
            let day = utc_day_of(at);
            if day - 1 <= local_day && local_day <= day + 1 {
                Some(m)
            } else {
                None
            }
        },
        None => None,
    }
}

/// The local wall-clock moment of an instant in the machine's time zone. An
/// instant outside the representable range has none; an ordinary instant
/// has one; and every moment is valid and lies on the date of UTC of the
/// instant or on a neighbour of it.
pub fn local_moment(at: &Timestamp) -> (r: Option<LocalMoment>)
    ensures
        !at.wf() ==> r is None,
        at.is_ordinary() ==> r is Some,
        r matches Some(m) ==> m.wf() && is_near(m.date(), *at),
{
    if !(MIN_SECS <= at.secs && at.secs <= MAX_SECS) {
        return None;
    }
    moment_of(local_fields(at.secs, at.nanos), at)
}

/// The local calendar date of an instant in the machine's time zone. An
/// instant outside the representable range has none; an ordinary instant
/// has one; and every date is the date of UTC of the instant or a neighbour
/// of it.
pub fn local_date(at: &Timestamp) -> (r: Option<CalendarDate>)
    ensures
        !at.wf() ==> r is None,
        at.is_ordinary() ==> r is Some,
        r matches Some(d) ==> d.wf() && is_near(d, *at),
{
    match local_moment(at) {
        Some(m) => Some(m.calendar_date()),
        None => None,
    }
}

} // verus!
