//! What holds of the transitions, stated over the queues as maps.

use crate::models::reminder::{RemindType, Reminder};
use crate::models::reminder_log::LogAction;
use crate::queue::{expired, pending, Wake};
use crate::scheduler::effects::EffectView;
use crate::scheduler::items::{TimeoutWatch, WakeQueuesView};
use crate::scheduler::manager::{
    completed, dismissed, due_positions, fired, fires, log_effects, loops, notice_effects,
    opening_effects,
    repeats_on_close, snoozed, timeout_body, timeout_effects, timeout_title, watches_timeout,
    with_snooze,
};
use crate::recurrence::law_daily_due_at_its_minute;
use crate::time::{clock_text, CalendarDate, LocalMoment, Timestamp};
use vstd::prelude::*;

verus! {

/// A snooze entry filed for a reminder that already has one replaces it: the
/// reminder wakes at the instant of the later entry, and the queues are as if
/// the earlier entry had never been filed.
pub proof fn law_snooze_replaces(
    q: WakeQueuesView,
    id: Seq<char>,
    first_minutes: int,
    first_at: Timestamp,
    minutes: int,
    now: Timestamp,
)
    ensures
        with_snooze(with_snooze(q, id, first_minutes, first_at, first_at), id, minutes, now, now)
            == with_snooze(q, id, minutes, now, now),
        with_snooze(
            with_snooze(q, id, first_minutes, first_at, first_at),
            id,
            minutes,
            now,
            now,
        ).snooze[id].snooze_until == now.plus_minutes(minutes),
{
    let once = with_snooze(q, id, minutes, now, now);
    let twice = with_snooze(
        with_snooze(q, id, first_minutes, first_at, first_at),
        id,
        minutes,
        now,
        now,
    );
    assert(twice.snooze =~= once.snooze);
}

/// What was drained is not drained again: of the entries that a drain at
/// `now` leaves pending, none has come due at `now`, so that a second drain
/// at the same instant returns nothing and changes nothing.
pub proof fn law_drained_once<T: Wake>(m: Map<Seq<char>, T::V>, now: Timestamp)
    ensures
        expired::<T>(pending::<T>(m, now), now) == Map::<Seq<char>, T::V>::empty(),
        pending::<T>(pending::<T>(m, now), now) == pending::<T>(m, now),
        forall|id: Seq<char>|
            !(#[trigger] expired::<T>(m, now).dom().contains(id) && pending::<T>(
                m,
                now,
            ).dom().contains(id)),
{
    assert(expired::<T>(pending::<T>(m, now), now) =~= Map::<Seq<char>, T::V>::empty());
    assert(pending::<T>(pending::<T>(m, now), now) =~= pending::<T>(m, now));
}

/// A drain splits the queue: every entry is either returned or left
/// pending, and none is changed.
pub proof fn law_drain_splits<T: Wake>(m: Map<Seq<char>, T::V>, now: Timestamp)
    ensures
        expired::<T>(m, now).union_prefer_right(pending::<T>(m, now)) == m,
{
    assert(expired::<T>(m, now).union_prefer_right(pending::<T>(m, now)) =~= m);
}

/// Dismissing a reminder that does not repeat on close ends its loop: no
/// loop entry, no snooze entry and no timeout watch stay pending for it.
pub proof fn law_dismiss_without_repeat(
    q: WakeQueuesView,
    reminder: Reminder,
    id: Seq<char>,
    now: Timestamp,
)
    requires
        !repeats_on_close(reminder),
    ensures
        dismissed(q, reminder, id, now).is_clear_of(id),
{
}

/// Dismissing a reminder that repeats on close snoozes it for its repeat
/// interval, counted from `now`, and leaves the loop queue as it was.
pub proof fn law_dismiss_with_repeat(
    q: WakeQueuesView,
    reminder: Reminder,
    id: Seq<char>,
    now: Timestamp,
)
    requires
        repeats_on_close(reminder),
    ensures
        dismissed(q, reminder, id, now).snooze.dom().contains(id),
        dismissed(q, reminder, id, now).snooze[id].snooze_until == now.plus_minutes(
            reminder.repeat_interval->0 as int,
        ),
        dismissed(q, reminder, id, now).loops == q.loops,
        !dismissed(q, reminder, id, now).timeouts.dom().contains(id),
{
}

/// Completing a reminder cancels whatever was pending for it, and a snooze
/// supersedes the loop and the timeout watch.
pub proof fn law_commands_cancel(q: WakeQueuesView, id: Seq<char>, minutes: int, now: Timestamp)
    ensures
        completed(q, id).is_clear_of(id),
        !snoozed(q, id, minutes, now).loops.dom().contains(id),
        !snoozed(q, id, minutes, now).timeouts.dom().contains(id),
        snoozed(q, id, minutes, now).snooze.dom().contains(id),
        snoozed(q, id, minutes, now).snooze[id].snooze_until == now.plus_minutes(minutes),
{
}

/// A command on one reminder leaves what is pending for every other
/// reminder as it was.
pub proof fn law_commands_are_local(
    q: WakeQueuesView,
    reminder: Reminder,
    id: Seq<char>,
    other: Seq<char>,
    minutes: int,
    now: Timestamp,
)
    requires
        other != id,
    ensures
        completed(q, id).snooze.dom().contains(other) == q.snooze.dom().contains(other),
        completed(q, id).loops.dom().contains(other) == q.loops.dom().contains(other),
        completed(q, id).timeouts.dom().contains(other) == q.timeouts.dom().contains(other),
        snoozed(q, id, minutes, now).snooze.dom().contains(other) == q.snooze.dom().contains(
            other,
        ),
        snoozed(q, id, minutes, now).loops.dom().contains(other) == q.loops.dom().contains(other),
        snoozed(q, id, minutes, now).timeouts.dom().contains(other) == q.timeouts.dom().contains(
            other,
        ),
        dismissed(q, reminder, id, now).snooze.dom().contains(other) == q.snooze.dom().contains(
            other,
        ),
        dismissed(q, reminder, id, now).loops.dom().contains(other) == q.loops.dom().contains(
            other,
        ),
        dismissed(q, reminder, id, now).timeouts.dom().contains(other)
            == q.timeouts.dom().contains(other),
{
}

/// A single reminder that is enabled, not deleted and due, has no timeout to
/// watch, does not loop and asks for no notification. The regular-schedule
/// check returns it; its firing first asks for the alert and for `now` as
/// the instant of its last firing; then for one `triggered` log entry; and
/// in the end the queues stay as they were and nothing more is asked for.
pub proof fn law_plain_firing(
    q: WakeQueuesView,
    reminder: Reminder,
    last_fired_on: Option<CalendarDate>,
    now_local: LocalMoment,
    now: Timestamp,
)
    requires
        fires(reminder, last_fired_on, now_local),
        !watches_timeout(reminder),
        !loops(reminder),
        !reminder.notify_on_trigger,
    ensures
        due_positions(seq![reminder], seq![last_fired_on], now_local) == seq![0int],
        opening_effects(reminder, now) == seq![
            EffectView::Alert { reminder_uuid: reminder.uuid@ },
            EffectView::SetLastTriggered { reminder_uuid: reminder.uuid@, at: now },
        ],
        log_effects(reminder, false, now) == seq![
            EffectView::AppendLog {
                reminder_uuid: reminder.uuid@,
                action: LogAction::Triggered,
                triggered_at: now,
                action_at: None,
                snooze_until: None,
                note: None,
            },
        ],
        fired(q, reminder, now) == q,
        notice_effects(reminder) == Seq::<EffectView>::empty(),
{
    let reminders = seq![reminder];
    let dates = seq![last_fired_on];
    assert(reminders.drop_last() =~= Seq::<Reminder>::empty());
    assert(dates.drop_last() =~= Seq::<Option<CalendarDate>>::empty());
    assert(reminders.last() == reminder);
    assert(dates.last() == last_fired_on);
    assert(due_positions(reminders.drop_last(), dates.drop_last(), now_local) =~= Seq::<
        int,
    >::empty());
    assert(due_positions(reminders, dates, now_local) =~= seq![0int]);
}

/// An enabled daily reminder set for `hour:minute` fires on the regular
/// schedule at exactly the moments that show that hour and minute on a date
/// on which it has not fired yet: once it has fired, which sets the date of
/// its last firing, it fires at no other moment of that date, and it fires
/// at no other minute of any date.
pub proof fn law_enabled_daily_fires_once_a_day(
    reminder: Reminder,
    hour: int,
    minute: int,
    last_fired_on: Option<CalendarDate>,
    now_local: LocalMoment,
)
    requires
        reminder.is_enabled,
        reminder.deleted_at is None,
        reminder.remind_type == RemindType::Daily,
        0 <= hour < 24,
        0 <= minute < 60,
        reminder.remind_time@ == clock_text(hour, minute),
        now_local.wf(),
    ensures
        fires(reminder, last_fired_on, now_local) <==> (now_local.hour == hour && now_local.minute
            == minute && last_fired_on != Some(now_local.date())),
        !fires(reminder, Some(now_local.date()), now_local),
{
    law_daily_due_at_its_minute(reminder, hour, minute, last_fired_on, now_local);
}

/// A reminder that is not due, is disabled or is deleted is passed over by
/// the regular-schedule check.
pub proof fn law_no_firing(
    reminder: Reminder,
    last_fired_on: Option<CalendarDate>,
    now_local: LocalMoment,
)
    requires
        !fires(reminder, last_fired_on, now_local),
    ensures
        due_positions(seq![reminder], seq![last_fired_on], now_local) == Seq::<int>::empty(),
{
    let reminders = seq![reminder];
    let dates = seq![last_fired_on];
    assert(reminders.drop_last() =~= Seq::<Reminder>::empty());
    assert(dates.drop_last() =~= Seq::<Option<CalendarDate>>::empty());
    assert(reminders.last() == reminder);
    assert(dates.last() == last_fired_on);
    assert(due_positions(reminders.drop_last(), dates.drop_last(), now_local) =~= Seq::<
        int,
    >::empty());
}

/// A firing with a timeout to watch, which nothing answers: once the minutes
/// of the timeout have elapsed, the timeout check returns the watch of the
/// reminder, the timeout asks for the event and for a notification, and, for
/// a reminder that does not loop and started from empty queues, nothing
/// stays pending for it.
pub proof fn law_unanswered_firing_times_out(reminder: Reminder, fired_at: Timestamp, now: Timestamp)
    requires
        watches_timeout(reminder),
        !loops(reminder),
        fired_at.elapsed(reminder.timeout_minutes->0 as int, now),
    ensures
        fired(WakeQueuesView::empty(), reminder, fired_at).timeouts.dom().contains(
            reminder.uuid@,
        ),
        expired::<TimeoutWatch>(
            fired(WakeQueuesView::empty(), reminder, fired_at).timeouts,
            now,
        ).dom().contains(reminder.uuid@),
        pending::<TimeoutWatch>(
            fired(WakeQueuesView::empty(), reminder, fired_at).timeouts,
            now,
        ) == Map::<Seq<char>, <TimeoutWatch as View>::V>::empty(),
        fired(WakeQueuesView::empty(), reminder, fired_at).snooze.dom() == Set::<
            Seq<char>,
        >::empty(),
        fired(WakeQueuesView::empty(), reminder, fired_at).loops.dom() == Set::<
            Seq<char>,
        >::empty(),
        timeout_effects(Some(&reminder)) == seq![
            EffectView::EmitTimeout { reminder_uuid: reminder.uuid@ },
            EffectView::Notify { title: timeout_title(reminder), body: timeout_body(reminder) },
        ],
{
    let after = fired(WakeQueuesView::empty(), reminder, fired_at);
    assert(after.timeouts.dom().contains(reminder.uuid@));
    assert(pending::<TimeoutWatch>(after.timeouts, now) =~= Map::<
        Seq<char>,
        <TimeoutWatch as View>::V,
    >::empty());
    assert(after.snooze.dom() =~= Set::<Seq<char>>::empty());
    assert(after.loops.dom() =~= Set::<Seq<char>>::empty());
}

/// A timeout watch whose minutes have not elapsed stays pending.
pub proof fn law_timeout_not_before_its_time(
    reminder: Reminder,
    fired_at: Timestamp,
    now: Timestamp,
)
    requires
        watches_timeout(reminder),
        !fired_at.elapsed(reminder.timeout_minutes->0 as int, now),
    ensures
        !expired::<TimeoutWatch>(
            fired(WakeQueuesView::empty(), reminder, fired_at).timeouts,
            now,
        ).dom().contains(reminder.uuid@),
        pending::<TimeoutWatch>(
            fired(WakeQueuesView::empty(), reminder, fired_at).timeouts,
            now,
        ).dom().contains(reminder.uuid@),
{
}

/// A reminder that fired on the regular schedule does not fire again on
/// that date: with the date of its last firing set to the date of the
/// firing, the check passes it over at every moment of that date.
pub proof fn law_fired_reminder_rests(reminder: Reminder, fired_on: LocalMoment, later: LocalMoment)
    requires
        later.date() == fired_on.date(),
    ensures
        due_positions(seq![reminder], seq![Some(fired_on.date())], later) == Seq::<int>::empty(),
{
    law_no_firing(reminder, Some(fired_on.date()), later);
}

} // verus!
