//! The recurrence rule: whether a reminder is due at a moment of local time.

use crate::models::reminder::{RemindType, Reminder};
use crate::time::{
    clock_text, days_in_month, get_last_day_of_month, is_leap_year, lemma_clock_text_injective,
    is_near, local_date, month_end, CalendarDate, LocalMoment, Timestamp,
};
use vstd::prelude::*;

verus! {

/// `day` is one of the configured days.
pub open spec fn lists_day(days: Seq<u8>, day: int) -> bool {
    exists|i: int| 0 <= i < days.len() && #[trigger] days[i] == day
}

/// Some configured day lies after `last`.
pub open spec fn lists_day_after(days: Seq<u8>, last: int) -> bool {
    exists|i: int| 0 <= i < days.len() && #[trigger] days[i] > last
}

/// What the kind of a reminder asks of the day: nothing of a daily one; of a
/// one-off, that it never fired; of a weekday one, that the day of the week
/// is configured; of a monthly one, that the day of the month is configured,
/// or that the day is the last of its month and a configured day lies beyond
/// the end of the month.
pub open spec fn kind_allows(reminder: Reminder, now: LocalMoment) -> bool {
    match reminder.remind_type {
        RemindType::Daily => true,
        RemindType::Once => reminder.last_triggered_at is None,
        RemindType::Weekday => reminder.weekdays matches Some(days) && lists_day(
            days@,
            now.weekday as int,
        ),
        RemindType::Monthly => reminder.monthdays matches Some(days) && {
            let last = month_end(now.year as int, now.month as int);
            lists_day(days@, now.day as int) || (now.day == last && lists_day_after(days@, last))
        },
    }
}

/// The recurrence rule. A reminder is due at `now` when its time of day is
/// that of `now`, it did not already fire on the date of `now`
/// (`last_fired_on` is the local date of its last firing), and its kind
/// allows the day.
pub open spec fn due(reminder: Reminder, last_fired_on: Option<CalendarDate>, now: LocalMoment) -> bool {
    &&& reminder.remind_time@ == now.clock_text()
    &&& last_fired_on != Some(now.date())
    &&& kind_allows(reminder, now)
}

fn contains_day(days: &Vec<u8>, day: u32) -> (b: bool)
    ensures
        b == lists_day(days@, day as int),
{
    let mut i: usize = 0;
    while i < days.len()
        invariant
            i <= days@.len(),
            forall|j: int| 0 <= j < i ==> #[trigger] days@[j] != day,
        decreases days@.len() - i,
    {
        if days[i] as u32 == day {
            return true;
        }
        i += 1;
    }
    false
}

fn contains_day_after(days: &Vec<u8>, last: u8) -> (b: bool)
    ensures
        b == lists_day_after(days@, last as int),
{
    let mut i: usize = 0;
    while i < days.len()
        invariant
            i <= days@.len(),
            forall|j: int| 0 <= j < i ==> #[trigger] days@[j] <= last,
        decreases days@.len() - i,
    {
        if days[i] > last {
            return true;
        }
        i += 1;
    }
    false
}

/// Whether the kind of the reminder allows the day of `now`.
pub fn kind_allows_day(reminder: &Reminder, now: &LocalMoment) -> (b: bool)
    ensures
        b == kind_allows(*reminder, *now),
{
    match reminder.remind_type {
        RemindType::Daily => true,
        RemindType::Once => reminder.last_triggered_at.is_none(),
        RemindType::Weekday => match &reminder.weekdays {
            Some(days) => contains_day(days, now.weekday as u32),
            None => false,
        },
        RemindType::Monthly => match &reminder.monthdays {
            Some(days) => {
                if contains_day(days, now.day) {
                    true
                } else {
                    let last = get_last_day_of_month(now.year, now.month);
                    now.day == last as u32 && contains_day_after(days, last)
                }
            },
            None => false,
        },
    }
}

/// The recurrence rule, given the local date on which the reminder last
/// fired.
pub fn is_due_given(
    reminder: &Reminder,
    last_fired_on: Option<CalendarDate>,
    now: &LocalMoment,
) -> (b: bool)
    requires
        now.wf(),
    ensures
        b == due(*reminder, last_fired_on, *now),
{
    if !now.shows(reminder.remind_time.as_str()) {
        return false;
    }
    if let Some(date) = last_fired_on {
        if date == now.calendar_date() {
            return false;
        }
    }
    kind_allows_day(reminder, now)
}

/// A date that can stand for the local date of the last firing. A reminder
/// that never fired has none. One that fired at an ordinary instant has one,
/// the date of UTC of the instant or a neighbour of it. One that fired at
/// another instant has such a date or none.
pub open spec fn may_be_date_of(date: Option<CalendarDate>, fired_at: Option<Timestamp>) -> bool {
    match fired_at {
        Some(at) => match date {
            Some(d) => d.wf() && is_near(d, at),
            None => !at.is_ordinary(),
        },
        None => date is None,
    }
}

/// Whether the reminder is due at `now`. The date of its last firing is
/// taken in the machine's time zone; where the instant of the last firing has
/// no valid local date, which no ordinary instant lacks, the reminder counts
/// as not fired on the day of `now`. The zone decides the date, but only
/// among the date of UTC of the instant and its neighbours.
pub fn is_due(reminder: &Reminder, now: &LocalMoment) -> (b: bool)
    requires
        now.wf(),
    ensures
        exists|last_fired_on: Option<CalendarDate>|
            may_be_date_of(last_fired_on, reminder.last_triggered_at) && b == #[trigger] due(
                *reminder,
                last_fired_on,
                *now,
            ),
        reminder.last_triggered_at is None ==> b == due(*reminder, None, *now),
        b ==> due(*reminder, None, *now),
        reminder.last_triggered_at matches Some(at) && !is_near(now.date(), at) ==> b == due(
            *reminder,
            None,
            *now,
        ),
{
    let last_fired_on = match &reminder.last_triggered_at {
        Some(at) => local_date(at),
        None => None,
    };
    assert(may_be_date_of(last_fired_on, reminder.last_triggered_at));
    is_due_given(reminder, last_fired_on, now)
}

/// A daily reminder set for `hour:minute` is due at exactly the moments that
/// show that hour and minute on a date on which it has not fired yet, and at
/// no other minute.
pub proof fn law_daily_due_at_its_minute(
    reminder: Reminder,
    hour: int,
    minute: int,
    last_fired_on: Option<CalendarDate>,
    now: LocalMoment,
)
    requires
        reminder.remind_type == RemindType::Daily,
        0 <= hour < 24,
        0 <= minute < 60,
        reminder.remind_time@ == clock_text(hour, minute),
        now.wf(),
    ensures
        due(reminder, last_fired_on, now) <==> (now.hour == hour && now.minute == minute
            && last_fired_on != Some(now.date())),
{
    if reminder.remind_time@ == now.clock_text() {
        lemma_clock_text_injective(hour, minute, now.hour as int, now.minute as int);
    }
}

/// A reminder fires at most once on a calendar day: once the date of its last
/// firing is the date of `first`, it is due at no moment of that date,
/// whatever else changed in it.
pub proof fn law_once_per_day(reminder: Reminder, first: LocalMoment, later: LocalMoment)
    requires
        later.date() == first.date(),
    ensures
        !due(reminder, Some(first.date()), later),
{
}

/// A reminder that has fired on the date of `now` is not due at `now`,
/// however often it is evaluated.
pub proof fn law_fired_today_is_not_due(reminder: Reminder, now: LocalMoment)
    ensures
        !due(reminder, Some(now.date()), now),
{
}

/// A monthly reminder with a configured day beyond the end of the month is
/// due on the last day of that month.
pub proof fn law_monthly_rolls_to_last_day(
    reminder: Reminder,
    last_fired_on: Option<CalendarDate>,
    now: LocalMoment,
)
    requires
        reminder.remind_type == RemindType::Monthly,
        reminder.monthdays matches Some(days) && lists_day_after(
            days@,
            days_in_month(now.year as int, now.month as int),
        ),
        now.wf(),
        reminder.remind_time@ == now.clock_text(),
        last_fired_on != Some(now.date()),
        now.day == days_in_month(now.year as int, now.month as int),
    ensures
        due(reminder, last_fired_on, now),
{
}

/// A monthly reminder configured for day 31 alone, at its time of day and not
/// yet fired that day: in a month of fewer than 31 days it is due on the
/// last day of the month and on no other; in a month of 30 days, on day 30.
pub proof fn law_day_31_in_short_month(
    reminder: Reminder,
    last_fired_on: Option<CalendarDate>,
    now: LocalMoment,
)
    requires
        reminder.remind_type == RemindType::Monthly,
        reminder.monthdays matches Some(days) && days@ == seq![31u8],
        now.wf(),
        days_in_month(now.year as int, now.month as int) < 31,
        reminder.remind_time@ == now.clock_text(),
        last_fired_on != Some(now.date()),
    ensures
        due(reminder, last_fired_on, now) <==> now.day == days_in_month(
            now.year as int,
            now.month as int,
        ),
        days_in_month(now.year as int, now.month as int) == 30 ==> (due(
            reminder,
            last_fired_on,
            now,
        ) <==> now.day == 30),
{
    let days = reminder.monthdays->0@;
    let last = days_in_month(now.year as int, now.month as int);
    assert(month_end(now.year as int, now.month as int) == last);
    assert(days[0] == 31);
    assert(lists_day_after(days, last));
    assert(!lists_day(days, now.day as int));
}

/// A monthly reminder configured for day 31 alone, at its time of day and not
/// yet fired that day, in February: it is due on the 28th of a year that is
/// not a leap year, on the 29th of a leap year, and on no other day.
pub proof fn law_day_31_in_february(
    reminder: Reminder,
    last_fired_on: Option<CalendarDate>,
    now: LocalMoment,
)
    requires
        reminder.remind_type == RemindType::Monthly,
        reminder.monthdays matches Some(days) && days@ == seq![31u8],
        now.wf(),
        now.month == 2,
        reminder.remind_time@ == now.clock_text(),
        last_fired_on != Some(now.date()),
    ensures
        !is_leap_year(now.year as int) ==> (due(reminder, last_fired_on, now) <==> now.day == 28),
        is_leap_year(now.year as int) ==> (due(reminder, last_fired_on, now) <==> now.day == 29),
{
    law_day_31_in_short_month(reminder, last_fired_on, now);
}

} // verus!
