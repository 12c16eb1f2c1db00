//! The transitions of the engine: what a firing, a tick of each queue and
//! each user command do to the wake queues, and which effects they ask for.
//!
//! Every transition is a function of the queues, the reminder and the
//! current instant. The host reads the clock and the repository, hands the
//! values in, and performs the effects that come back. Where the engine has
//! to know how a write went before it goes on, the transition comes in two
//! steps, and the host hands the outcome of the first to the second.

use crate::models::reminder::Reminder;
use crate::models::reminder_log::LogAction;
use crate::queue::{as_map, expired, ids_distinct, pending};
use crate::recurrence::{due, is_due_given, may_be_date_of};
use crate::scheduler::effects::{views, Effect, EffectView};
use crate::scheduler::items::{
    LoopItem, LoopItemView, SnoozeItem, SnoozeItemView, TimeoutWatch, TimeoutWatchView,
    WakeQueues, WakeQueuesView,
};
use crate::text::append_decimal;
use crate::text::decimal_text;
use crate::time::{is_near, local_date, CalendarDate, LocalMoment, Timestamp};
use vstd::prelude::*;
use vstd::string::*;

verus! {

/// The queues after a snooze entry was filed for reminder `id`: it wakes
/// `minutes` minutes after `now`.
pub open spec fn with_snooze(
    q: WakeQueuesView,
    id: Seq<char>,
    minutes: int,
    triggered_at: Timestamp,
    now: Timestamp,
) -> WakeQueuesView {
    WakeQueuesView {
        snooze: q.snooze.insert(
            id,
            SnoozeItemView {
                reminder_uuid: id,
                snooze_until: now.plus_minutes(minutes),
                original_triggered_at: triggered_at,
            },
        ),
        loops: q.loops,
        timeouts: q.timeouts,
    }
}

/// The queues after a loop entry was filed for reminder `id`: it wakes
/// `interval_minutes` minutes after `now`.
pub open spec fn with_loop(
    q: WakeQueuesView,
    id: Seq<char>,
    interval_minutes: int,
    triggered_at: Timestamp,
    now: Timestamp,
) -> WakeQueuesView {
    WakeQueuesView {
        snooze: q.snooze,
        loops: q.loops.insert(
            id,
            LoopItemView {
                reminder_uuid: id,
                next_loop_at: now.plus_minutes(interval_minutes),
                original_triggered_at: triggered_at,
            },
        ),
        timeouts: q.timeouts,
    }
}

/// The queues after a timeout watch was filed for reminder `id`, counted
/// from `now`.
pub open spec fn with_timeout(
    q: WakeQueuesView,
    id: Seq<char>,
    timeout_minutes: i32,
    now: Timestamp,
) -> WakeQueuesView {
    WakeQueuesView {
        snooze: q.snooze,
        loops: q.loops,
        timeouts: q.timeouts.insert(
            id,
            TimeoutWatchView { reminder_uuid: id, triggered_at: now, timeout_minutes },
        ),
    }
}

pub open spec fn without_snooze(q: WakeQueuesView, id: Seq<char>) -> WakeQueuesView {
    WakeQueuesView { snooze: q.snooze.remove(id), loops: q.loops, timeouts: q.timeouts }
}

pub open spec fn without_loop(q: WakeQueuesView, id: Seq<char>) -> WakeQueuesView {
    WakeQueuesView { snooze: q.snooze, loops: q.loops.remove(id), timeouts: q.timeouts }
}

pub open spec fn without_timeout(q: WakeQueuesView, id: Seq<char>) -> WakeQueuesView {
    WakeQueuesView { snooze: q.snooze, loops: q.loops, timeouts: q.timeouts.remove(id) }
}

/// Files a snooze entry for the reminder, replacing the one it had.
pub fn add_snooze(
    queues: &mut WakeQueues,
    reminder_uuid: &str,
    minutes: i32,
    triggered_at: Timestamp,
    now: &Timestamp,
)
    requires
        old(queues).wf(),
        now.wf(),
    ensures
        final(queues).wf(),
        final(queues)@ == with_snooze(
            old(queues)@,
            reminder_uuid@,
            minutes as int,
            triggered_at,
            *now,
        ),
{
    let item = SnoozeItem {
        reminder_uuid: String::from_str(reminder_uuid),
        snooze_until: now.add_minutes(minutes),
        original_triggered_at: triggered_at,
    };
    queues.snooze.upsert(item);
}

/// Removes the reminder's snooze entry, if it has one.
pub fn remove_snooze(queues: &mut WakeQueues, reminder_uuid: &str)
    requires
        old(queues).wf(),
    ensures
        final(queues).wf(),
        final(queues)@ == without_snooze(old(queues)@, reminder_uuid@),
{
    queues.snooze.remove(reminder_uuid);
}

/// Files a loop entry for the reminder, replacing the one it had.
pub fn add_loop(
    queues: &mut WakeQueues,
    reminder_uuid: &str,
    interval_minutes: i32,
    triggered_at: Timestamp,
    now: &Timestamp,
)
    requires
        old(queues).wf(),
        now.wf(),
    ensures
        final(queues).wf(),
        final(queues)@ == with_loop(
            old(queues)@,
            reminder_uuid@,
            interval_minutes as int,
            triggered_at,
            *now,
        ),
{
    let item = LoopItem {
        reminder_uuid: String::from_str(reminder_uuid),
        next_loop_at: now.add_minutes(interval_minutes),
        original_triggered_at: triggered_at,
    };
    queues.loops.upsert(item);
}

/// Removes the reminder's loop entry, if it has one.
pub fn remove_loop(queues: &mut WakeQueues, reminder_uuid: &str)
    requires
        old(queues).wf(),
    ensures
        final(queues).wf(),
        final(queues)@ == without_loop(old(queues)@, reminder_uuid@),
{
    queues.loops.remove(reminder_uuid);
}

/// Puts the reminder under a timeout watch that starts at `now`, replacing
/// the one it had.
pub fn add_timeout_check(
    queues: &mut WakeQueues,
    reminder_uuid: &str,
    timeout_minutes: i32,
    now: &Timestamp,
)
    requires
        old(queues).wf(),
    ensures
        final(queues).wf(),
        final(queues)@ == with_timeout(old(queues)@, reminder_uuid@, timeout_minutes, *now),
{
    let item = TimeoutWatch {
        reminder_uuid: String::from_str(reminder_uuid),
        triggered_at: *now,
        timeout_minutes,
    };
    queues.timeouts.upsert(item);
}

/// Ends the reminder's timeout watch, if it has one.
pub fn remove_timeout_check(queues: &mut WakeQueues, reminder_uuid: &str)
    requires
        old(queues).wf(),
    ensures
        final(queues).wf(),
        final(queues)@ == without_timeout(old(queues)@, reminder_uuid@),
{
    queues.timeouts.remove(reminder_uuid);
}

/// The firing of the reminder is put under a timeout watch.
pub open spec fn watches_timeout(reminder: Reminder) -> bool {
    reminder.timeout_minutes matches Some(minutes) && minutes > 0 && reminder.notify_on_timeout
}

/// The reminder fires again after its loop interval.
pub open spec fn loops(reminder: Reminder) -> bool {
    reminder.is_loop && reminder.loop_interval is Some
}

/// The queues after the reminder fired at `now`: a timeout watch starts
/// where one is configured, and a loop entry is filed for a looping
/// reminder, with `now` as the instant of the original firing.
pub open spec fn fired(q: WakeQueuesView, reminder: Reminder, now: Timestamp) -> WakeQueuesView {
    let watched = if watches_timeout(reminder) {
        with_timeout(q, reminder.uuid@, reminder.timeout_minutes->0, now)
    } else {
        q
    };
    if loops(reminder) {
        with_loop(watched, reminder.uuid@, reminder.loop_interval->0 as int, now, now)
    } else {
        watched
    }
}

/// The note that the log entry of a replayed firing carries.
pub open spec fn repeat_note() -> Seq<char> {
    "重复提醒"@
}

/// The title of the notification that a firing sends.
pub open spec fn trigger_title(reminder: Reminder) -> Seq<char> {
    "提醒触发: "@ + reminder.title@
}

/// What a firing on the regular schedule asks for first: the alert, and the
/// write of `now` as the instant of the last firing.
pub open spec fn opening_effects(reminder: Reminder, now: Timestamp) -> Seq<EffectView> {
    seq![
        EffectView::Alert { reminder_uuid: reminder.uuid@ },
        EffectView::SetLastTriggered { reminder_uuid: reminder.uuid@, at: now },
    ]
}

/// The log entry of a firing, which bears a note for a replay.
pub open spec fn log_effects(reminder: Reminder, is_repeat: bool, now: Timestamp) -> Seq<
    EffectView,
> {
    seq![
        EffectView::AppendLog {
            reminder_uuid: reminder.uuid@,
            action: LogAction::Triggered,
            triggered_at: now,
            action_at: None,
            snooze_until: None,
            note: if is_repeat { Some(repeat_note()) } else { None },
        },
    ]
}

/// The notification of a firing, where the reminder asks for one.
pub open spec fn notice_effects(reminder: Reminder) -> Seq<EffectView> {
    if reminder.notify_on_trigger {
        seq![EffectView::Notify { title: trigger_title(reminder), body: reminder.content@ }]
    } else {
        Seq::<EffectView>::empty()
    }
}

/// What the replay of a firing asks for first: the alert and the log entry.
/// A replay writes no instant of the last firing, so that it does not count
/// as the day's firing.
pub open spec fn replay_opening(reminder: Reminder, now: Timestamp) -> Seq<EffectView> {
    seq![EffectView::Alert { reminder_uuid: reminder.uuid@ }] + log_effects(reminder, true, now)
}

/// The firing goes ahead: what had to be persisted so far was persisted. A
/// firing on the regular schedule needs the instant of its last firing
/// written; every firing needs its log entry appended.
pub open spec fn goes_ahead(is_repeat: bool, written: bool, logged: bool) -> bool {
    (is_repeat || written) && logged
}

/// First step of a firing on the regular schedule: what to do before
/// anything else. The host performs the alert and the write and hands the
/// outcome of the write to `log_trigger`.
pub fn begin_trigger(reminder: &Reminder, now: &Timestamp) -> (effects: Vec<Effect>)
    ensures
        views(effects@) == opening_effects(*reminder, *now),
{
    let mut effects: Vec<Effect> = Vec::new();
    effects.push(Effect::Alert { reminder_uuid: reminder.uuid.clone() });
    effects.push(Effect::SetLastTriggered { reminder_uuid: reminder.uuid.clone(), at: *now });
    assert(views(effects@) =~= opening_effects(*reminder, *now));
    effects
}

fn log_entry(reminder: &Reminder, is_repeat: bool, now: &Timestamp) -> (effects: Vec<Effect>)
    ensures
        views(effects@) == log_effects(*reminder, is_repeat, *now),
{
    let note = if is_repeat {
        Some(String::from_str("重复提醒"))
    } else {
        None
    };
    let mut effects: Vec<Effect> = Vec::new();
    effects.push(
        Effect::AppendLog {
            reminder_uuid: reminder.uuid.clone(),
            action: LogAction::Triggered,
            triggered_at: *now,
            action_at: None,
            snooze_until: None,
            note,
        },
    );
    assert(views(effects@) =~= log_effects(*reminder, is_repeat, *now));
    effects
}

/// Second step of a firing on the regular schedule. `written` tells whether
/// the instant of the last firing was written. Where it was, the log entry
/// is asked for; where it was not, the reminder is abandoned for this tick
/// and nothing is asked for. The host appends the entry and hands the
/// outcome to `trigger_reminder`.
pub fn log_trigger(reminder: &Reminder, written: bool, now: &Timestamp) -> (effects: Vec<Effect>)
    ensures
        written ==> views(effects@) == log_effects(*reminder, false, *now),
        !written ==> effects@.len() == 0,
{
    if written {
        log_entry(reminder, false, now)
    } else {
        Vec::new()
    }
}

/// Last step of a firing on the regular schedule. `written` and `logged`
/// tell whether the instant of the last firing was written and the log entry
/// appended. Where both were, the firing goes ahead. Where one was not, the
/// reminder is abandoned for this tick: no queue changes and nothing is
/// asked for.
pub fn trigger_reminder(
    queues: &mut WakeQueues,
    reminder: &Reminder,
    written: bool,
    logged: bool,
    now: &Timestamp,
) -> (effects: Vec<Effect>)
    requires
        old(queues).wf(),
        now.wf(),
    ensures
        final(queues).wf(),
        written && logged ==> final(queues)@ == fired(old(queues)@, *reminder, *now) && views(
            effects@,
        ) == notice_effects(*reminder),
        !(written && logged) ==> final(queues)@ == old(queues)@ && effects@.len() == 0,
{
    trigger_reminder_internal(queues, reminder, false, written, logged, now)
}

/// Last step of a firing. `is_repeat` tells a replay from a firing on the
/// regular schedule; `written` and `logged` tell whether the instant of the
/// last firing was written, which only a firing on the regular schedule asks
/// for, and whether the log entry was appended. A firing that goes ahead
/// files the timeout watch and the loop entry that the reminder asks for,
/// and asks for the notification. Any other is abandoned: no queue changes
/// and nothing is asked for.
pub fn trigger_reminder_internal(
    queues: &mut WakeQueues,
    reminder: &Reminder,
    is_repeat: bool,
    written: bool,
    logged: bool,
    now: &Timestamp,
) -> (effects: Vec<Effect>)
    requires
        old(queues).wf(),
        now.wf(),
    ensures
        final(queues).wf(),
        goes_ahead(is_repeat, written, logged) ==> final(queues)@ == fired(
            old(queues)@,
            *reminder,
            *now,
        ) && views(effects@) == notice_effects(*reminder),
        !goes_ahead(is_repeat, written, logged) ==> final(queues)@ == old(queues)@
            && effects@.len() == 0,
{
    let mut effects: Vec<Effect> = Vec::new();
    if !((is_repeat || written) && logged) {
        return effects;
    }
    if let Some(timeout_minutes) = reminder.timeout_minutes {
        if timeout_minutes > 0 && reminder.notify_on_timeout {
            add_timeout_check(queues, reminder.uuid.as_str(), timeout_minutes, now);
        }
    }
    if reminder.is_loop {
        if let Some(interval) = reminder.loop_interval {
            add_loop(queues, reminder.uuid.as_str(), interval, *now, now);
        }
    }
    if reminder.notify_on_trigger {
        let mut title = String::from_str("提醒触发: ");
        title.append(reminder.title.as_str());
        effects.push(Effect::Notify { title, body: reminder.content.clone() });
    }
    assert(views(effects@) =~= notice_effects(*reminder));
    effects
}

/// The reminder fires on the regular schedule at `now_local`: it is
/// enabled, not deleted, and due. `last_fired_on` is the local date of its
/// last firing.
pub open spec fn fires(
    reminder: Reminder,
    last_fired_on: Option<CalendarDate>,
    now_local: LocalMoment,
) -> bool {
    reminder.is_enabled && reminder.deleted_at is None && due(reminder, last_fired_on, now_local)
}

/// The positions of the reminders of a list that fire on the regular
/// schedule at `now_local`, in the order of the list.
pub open spec fn due_positions(
    reminders: Seq<Reminder>,
    last_fired_on: Seq<Option<CalendarDate>>,
    now_local: LocalMoment,
) -> Seq<int>
    decreases reminders.len(),
{
    if reminders.len() == 0 {
        Seq::<int>::empty()
    } else {
        let before = due_positions(reminders.drop_last(), last_fired_on.drop_last(), now_local);
        if fires(reminders.last(), last_fired_on.last(), now_local) {
            before.push(reminders.len() - 1)
        } else {
            before
        }
    }
}

/// A list of positions as integers.
pub open spec fn positions(list: Seq<usize>) -> Seq<int> {
    list.map_values(|i: usize| i as int)
}

/// The positions that fire are those of the reminders that fire, each once
/// and in rising order.
pub proof fn lemma_due_positions(
    reminders: Seq<Reminder>,
    last_fired_on: Seq<Option<CalendarDate>>,
    now_local: LocalMoment,
)
    requires
        last_fired_on.len() == reminders.len(),
    ensures
        forall|k: int|
            0 <= k < due_positions(reminders, last_fired_on, now_local).len() ==> {
                let p = #[trigger] due_positions(reminders, last_fired_on, now_local)[k];
                0 <= p < reminders.len() && fires(reminders[p], last_fired_on[p], now_local)
            },
        forall|i: int|
            0 <= i < reminders.len() && fires(#[trigger] reminders[i], last_fired_on[i], now_local)
                ==> due_positions(reminders, last_fired_on, now_local).contains(i),
        forall|j: int, k: int|
            0 <= j < k < due_positions(reminders, last_fired_on, now_local).len()
                ==> due_positions(reminders, last_fired_on, now_local)[j] < due_positions(
                reminders,
                last_fired_on,
                now_local,
            )[k],
    decreases reminders.len(),
{
    if reminders.len() > 0 {
        let front = reminders.drop_last();
        let front_dates = last_fired_on.drop_last();
        let all = due_positions(reminders, last_fired_on, now_local);
        let before = due_positions(front, front_dates, now_local);
        lemma_due_positions(front, front_dates, now_local);
        let n = reminders.len() - 1;
        assert forall|k: int| 0 <= k < all.len() implies {
            let p = #[trigger] all[k];
            0 <= p < reminders.len() && fires(reminders[p], last_fired_on[p], now_local)
        } by {
            if k < before.len() {
                let p = before[k];
                assert(all[k] == p);
                assert(front[p] == reminders[p] && front_dates[p] == last_fired_on[p]);
            }
        }
        assert forall|i: int|
            0 <= i < reminders.len() && fires(
                #[trigger] reminders[i],
                last_fired_on[i],
                now_local,
            ) implies all.contains(i) by {
            if i < n {
                assert(front[i] == reminders[i] && front_dates[i] == last_fired_on[i]);
                assert(before.contains(i));
                let k = choose|k: int| 0 <= k < before.len() && before[k] == i;
                assert(all[k] == i);
            } else {
                assert(all[all.len() - 1] == i);
            }
        }
        assert forall|j: int, k: int| 0 <= j < k < all.len() implies all[j] < all[k] by {
            if k < before.len() {
                assert(all[j] == before[j] && all[k] == before[k]);
            } else {
                assert(all[j] == before[j]);
                assert(before[j] < front.len());
            }
        }
    }
}

/// The regular-schedule check, given for each reminder the local date of its
/// last firing: the positions of the reminders of the list that are enabled,
/// not deleted and due at `now_local`. The host takes each of them through
/// `begin_trigger`, `log_trigger` and `trigger_reminder`.
pub fn check_reminders_given(
    reminders: &Vec<Reminder>,
    last_fired_on: &Vec<Option<CalendarDate>>,
    now_local: &LocalMoment,
) -> (due: Vec<usize>)
    requires
        now_local.wf(),
        last_fired_on@.len() == reminders@.len(),
    ensures
        positions(due@) == due_positions(reminders@, last_fired_on@, *now_local),
        forall|k: int| 0 <= k < due@.len() ==> #[trigger] due@[k] < reminders@.len(),
{
    let mut due: Vec<usize> = Vec::new();
    let mut i: usize = 0;
    assert(positions(due@) =~= Seq::<int>::empty());
    while i < reminders.len()
        invariant
            i <= reminders@.len(),
            last_fired_on@.len() == reminders@.len(),
            now_local.wf(),
            positions(due@) == due_positions(
                reminders@.take(i as int),
                last_fired_on@.take(i as int),
                *now_local,
            ),
            forall|k: int| 0 <= k < due@.len() ==> #[trigger] due@[k] < i,
        decreases reminders@.len() - i,
    {
        let reminder = &reminders[i];
        proof {
            let next = reminders@.take(i + 1);
            let next_dates = last_fired_on@.take(i + 1);
            assert(next.drop_last() =~= reminders@.take(i as int));
            assert(next_dates.drop_last() =~= last_fired_on@.take(i as int));
            assert(next.last() == reminders@[i as int]);
            assert(next_dates.last() == last_fired_on@[i as int]);
        }
        if reminder.is_enabled && reminder.deleted_at.is_none() && is_due_given(
            reminder,
            last_fired_on[i],
            now_local,
        ) {
            let ghost so_far = due@;
            due.push(i);
            assert(positions(due@) =~= positions(so_far).push(i as int));
        }
        i += 1;
    }
    proof {
        assert(reminders@.take(i as int) =~= reminders@);
        assert(last_fired_on@.take(i as int) =~= last_fired_on@);
    }
    due
}

/// For each reminder, the local date of its last firing in the machine's
/// time zone: none for a reminder that never fired; for one that fired at an
/// ordinary instant, the date of UTC of the last firing or a neighbour of
/// it; for any other, such a date or none.
pub fn last_firing_dates(reminders: &Vec<Reminder>) -> (dates: Vec<Option<CalendarDate>>)
    ensures
        dates@.len() == reminders@.len(),
        forall|i: int|
            0 <= i < reminders@.len() ==> may_be_date_of(
                #[trigger] dates@[i],
                reminders@[i].last_triggered_at,
            ),
{
    let mut dates: Vec<Option<CalendarDate>> = Vec::new();
    let mut i: usize = 0;
    while i < reminders.len()
        invariant
            i <= reminders@.len(),
            dates@.len() == i,
            forall|j: int|
                0 <= j < i ==> may_be_date_of(
                    #[trigger] dates@[j],
                    reminders@[j].last_triggered_at,
                ),
        decreases reminders@.len() - i,
    {
        let date = match &reminders[i].last_triggered_at {
            Some(at) => local_date(at),
            None => None,
        };
        dates.push(date);
        i += 1;
    }
    dates
}

/// The dates of the last firing of `n` reminders that never fired.
pub open spec fn never_fired(n: nat) -> Seq<Option<CalendarDate>> {
    Seq::new(n, |i: int| None::<CalendarDate>)
}

/// The reminder did not fire on the date of `now_local`, whatever the zone:
/// it never fired, or it last fired on a day of UTC that is neither the date
/// of `now_local` nor a neighbour of it.
pub open spec fn fired_on_another_day(reminder: Reminder, now_local: LocalMoment) -> bool {
    reminder.last_triggered_at matches Some(at) ==> !is_near(now_local.date(), at)
}

/// Dates of last firings of which none is the date of `now_local` give the
/// positions that dates of reminders that never fired give.
pub proof fn lemma_due_positions_on_another_day(
    reminders: Seq<Reminder>,
    last_fired_on: Seq<Option<CalendarDate>>,
    now_local: LocalMoment,
)
    requires
        last_fired_on.len() == reminders.len(),
        forall|i: int|
            0 <= i < reminders.len() ==> #[trigger] last_fired_on[i] != Some(now_local.date()),
    ensures
        due_positions(reminders, last_fired_on, now_local) == due_positions(
            reminders,
            never_fired(reminders.len()),
            now_local,
        ),
    decreases reminders.len(),
{
    if reminders.len() > 0 {
        let n = reminders.len() - 1;
        let front_dates = last_fired_on.drop_last();
        assert forall|i: int| 0 <= i < n implies #[trigger] front_dates[i] != Some(
            now_local.date(),
        ) by {
            assert(front_dates[i] == last_fired_on[i]);
        }
        lemma_due_positions_on_another_day(reminders.drop_last(), front_dates, now_local);
        assert(never_fired(reminders.len()).drop_last() =~= never_fired(n as nat));
        assert(last_fired_on.last() == last_fired_on[n]);
        assert(never_fired(reminders.len()).last() == None::<CalendarDate>);
    }
}

/// The regular-schedule check: the positions of the reminders of the list
/// that are enabled, not deleted and due at `now_local`. The date of each
/// last firing is taken in the machine's time zone, so the outcome is that
/// of `check_reminders_given` for some dates. These are absent for the
/// reminders that never fired, and there and no further than a day from the
/// date of UTC of the last firing for those that fired at an ordinary
/// instant. For a list of reminders of which
/// none can have fired on the date of `now_local` the outcome is therefore
/// determined.
pub fn check_reminders(reminders: &Vec<Reminder>, now_local: &LocalMoment) -> (due: Vec<usize>)
    requires
        now_local.wf(),
    ensures
        exists|last_fired_on: Seq<Option<CalendarDate>>|
            {
                &&& last_fired_on.len() == reminders@.len()
                &&& forall|i: int|
                    0 <= i < reminders@.len() ==> may_be_date_of(
                        #[trigger] last_fired_on[i],
                        reminders@[i].last_triggered_at,
                    )
                &&& positions(due@) == #[trigger] due_positions(
                    reminders@,
                    last_fired_on,
                    *now_local,
                )
            },
        (forall|i: int|
            0 <= i < reminders@.len() ==> fired_on_another_day(#[trigger] reminders@[i], *now_local))
            ==> positions(due@) == due_positions(
            reminders@,
            never_fired(reminders@.len()),
            *now_local,
        ),
        forall|k: int| 0 <= k < due@.len() ==> #[trigger] due@[k] < reminders@.len(),
{
    let dates = last_firing_dates(reminders);
    proof {
        if forall|i: int|
            0 <= i < reminders@.len() ==> fired_on_another_day(
                #[trigger] reminders@[i],
                *now_local,
            ) {
            assert forall|i: int| 0 <= i < reminders@.len() implies #[trigger] dates@[i] != Some(
                now_local.date(),
            ) by {
                assert(fired_on_another_day(reminders@[i], *now_local));
                assert(may_be_date_of(dates@[i], reminders@[i].last_triggered_at));
            }
            lemma_due_positions_on_another_day(reminders@, dates@, *now_local);
        }
    }
    check_reminders_given(reminders, &dates, now_local)
}

/// The snooze-queue check: takes every snooze entry that has come due at
/// `now` out of the queue and returns it, each once. The host looks up the
/// reminder of each and takes it through `begin_replay` and `fire_snoozed`.
pub fn check_snooze_queue(queues: &mut WakeQueues, now: &Timestamp) -> (woken: Vec<SnoozeItem>)
    requires
        old(queues).wf(),
    ensures
        final(queues).wf(),
        final(queues)@.snooze == pending::<SnoozeItem>(old(queues)@.snooze, *now),
        final(queues)@.loops == old(queues)@.loops,
        final(queues)@.timeouts == old(queues)@.timeouts,
        ids_distinct(woken@),
        as_map(woken@) == expired::<SnoozeItem>(old(queues)@.snooze, *now),
{
    queues.snooze.drain_expired(now)
}

/// The loop-queue check: takes every loop entry that has come due at `now`
/// out of the queue and returns it, each once. The host looks up the
/// reminder of each and takes it through `begin_replay` and `fire_looped`.
pub fn check_loop_queue(queues: &mut WakeQueues, now: &Timestamp) -> (woken: Vec<LoopItem>)
    requires
        old(queues).wf(),
    ensures
        final(queues).wf(),
        final(queues)@.snooze == old(queues)@.snooze,
        final(queues)@.loops == pending::<LoopItem>(old(queues)@.loops, *now),
        final(queues)@.timeouts == old(queues)@.timeouts,
        ids_distinct(woken@),
        as_map(woken@) == expired::<LoopItem>(old(queues)@.loops, *now),
{
    queues.loops.drain_expired(now)
}

/// The timeout-queue check: takes every watch whose minutes have elapsed at
/// `now` out of the queue and returns it, each once. The host looks up the
/// reminder of each and hands it to `handle_timeout`.
pub fn check_timeout_queue(queues: &mut WakeQueues, now: &Timestamp) -> (timed_out: Vec<
    TimeoutWatch,
>)
    requires
        old(queues).wf(),
    ensures
        final(queues).wf(),
        final(queues)@.snooze == old(queues)@.snooze,
        final(queues)@.loops == old(queues)@.loops,
        final(queues)@.timeouts == pending::<TimeoutWatch>(old(queues)@.timeouts, *now),
        ids_distinct(timed_out@),
        as_map(timed_out@) == expired::<TimeoutWatch>(old(queues)@.timeouts, *now),
{
    queues.timeouts.drain_expired(now)
}

/// A reminder that was looked up for a replay is replayed: it was found and
/// is enabled.
pub open spec fn replays(found: Option<&Reminder>) -> bool {
    found matches Some(reminder) && reminder.is_enabled
}

/// First step of the replay of a firing whose snooze or loop entry came
/// due. `found` is what the lookup of the reminder gave. For a reminder that
/// is replayed, the alert and the log entry are asked for; a reminder that is
/// gone or disabled is passed over. The host performs them and hands the
/// outcome of the log entry to `fire_snoozed` or `fire_looped`.
pub fn begin_replay(found: Option<&Reminder>, now: &Timestamp) -> (effects: Vec<Effect>)
    ensures
        replays(found) ==> views(effects@) == replay_opening(*found->0, *now),
        !replays(found) ==> effects@.len() == 0,
{
    match found {
        Some(reminder) => {
            if reminder.is_enabled {
                let mut effects: Vec<Effect> = Vec::new();
                effects.push(Effect::Alert { reminder_uuid: reminder.uuid.clone() });
                let ghost alert = effects@;
                let mut log = log_entry(reminder, true, now);
                let ghost added = log@;
                effects.append(&mut log);
                assert(views(effects@) =~= views(alert) + views(added));
                assert(views(effects@) =~= replay_opening(*reminder, *now));
                effects
            } else {
                Vec::new()
            }
        },
        None => Vec::new(),
    }
}

/// Last step of the replay of a firing whose snooze entry came due. `found`
/// is what the lookup of the reminder gave, and `logged` whether the log
/// entry was appended. A reminder that is gone or disabled is passed over,
/// and one whose log entry failed is abandoned for this tick.
pub fn fire_snoozed(
    queues: &mut WakeQueues,
    found: Option<&Reminder>,
    logged: bool,
    now: &Timestamp,
) -> (effects: Vec<Effect>)
    requires
        old(queues).wf(),
        now.wf(),
    ensures
        final(queues).wf(),
        replays(found) && logged ==> final(queues)@ == fired(old(queues)@, *found->0, *now)
            && views(effects@) == notice_effects(*found->0),
        !(replays(found) && logged) ==> final(queues)@ == old(queues)@ && effects@.len() == 0,
{
    match found {
        Some(reminder) => {
            if reminder.is_enabled {
                trigger_reminder_internal(queues, reminder, true, true, logged, now)
            } else {
                Vec::new()
            }
        },
        None => Vec::new(),
    }
}

/// The queues after the replay of a looping reminder at `now`: the firing,
/// and then, for a reminder that still loops, a loop entry that wakes one
/// interval of the reminder after `now` and keeps the instant of the
/// original firing.
pub open spec fn looped(
    q: WakeQueuesView,
    reminder: Reminder,
    original_triggered_at: Timestamp,
    now: Timestamp,
) -> WakeQueuesView {
    if loops(reminder) {
        with_loop(
            fired(q, reminder, now),
            reminder.uuid@,
            reminder.loop_interval->0 as int,
            original_triggered_at,
            now,
        )
    } else {
        fired(q, reminder, now)
    }
}

/// Last step of the replay of a firing whose loop entry `item` came due.
/// `found` is what the lookup of the reminder gave, and `logged` whether the
/// log entry was appended. A reminder that is gone or disabled is passed
/// over, and one whose log entry failed is abandoned; either ends its loop.
pub fn fire_looped(
    queues: &mut WakeQueues,
    item: &LoopItem,
    found: Option<&Reminder>,
    logged: bool,
    now: &Timestamp,
) -> (effects: Vec<Effect>)
    requires
        old(queues).wf(),
        now.wf(),
    ensures
        final(queues).wf(),
        replays(found) && logged ==> final(queues)@ == looped(
            old(queues)@,
            *found->0,
            item.original_triggered_at,
            *now,
        ) && views(effects@) == notice_effects(*found->0),
        !(replays(found) && logged) ==> final(queues)@ == old(queues)@ && effects@.len() == 0,
{
    match found {
        Some(reminder) => {
            if reminder.is_enabled && logged {
                let effects = trigger_reminder_internal(queues, reminder, true, true, true, now);
                if reminder.is_loop {
                    if let Some(interval) = reminder.loop_interval {
                        add_loop(
                            queues,
                            reminder.uuid.as_str(),
                            interval,
                            item.original_triggered_at,
                            now,
                        );
                    }
                }
                effects
            } else {
                Vec::new()
            }
        },
        None => Vec::new(),
    }
}

/// The title of the notification of a timeout.
pub open spec fn timeout_title(reminder: Reminder) -> Seq<char> {
    "提醒超时: "@ + reminder.title@
}

/// The body of the notification of a timeout.
pub open spec fn timeout_body(reminder: Reminder) -> Seq<char> {
    "提醒「"@ + reminder.title@ + "」已超时未完成"@
}

/// The effects of a timeout: the event, and the notification where the
/// reminder asks for one. Nothing for a reminder that is gone.
pub open spec fn timeout_effects(found: Option<&Reminder>) -> Seq<EffectView> {
    match found {
        Some(reminder) => {
            let event = seq![EffectView::EmitTimeout { reminder_uuid: reminder.uuid@ }];
            if reminder.notify_on_timeout {
                event + seq![
                    EffectView::Notify {
                        title: timeout_title(*reminder),
                        body: timeout_body(*reminder),
                    },
                ]
            } else {
                event
            }
        },
        None => Seq::<EffectView>::empty(),
    }
}

/// What follows the timeout of a firing. `found` is what the lookup of the
/// reminder gave. A timeout only tells: it completes and dismisses nothing,
/// and touches no queue.
pub fn handle_timeout(found: Option<&Reminder>) -> (effects: Vec<Effect>)
    ensures
        views(effects@) == timeout_effects(found),
{
    let mut effects: Vec<Effect> = Vec::new();
    if let Some(reminder) = found {
        effects.push(Effect::EmitTimeout { reminder_uuid: reminder.uuid.clone() });
        if reminder.notify_on_timeout {
            let mut title = String::from_str("提醒超时: ");
            title.append(reminder.title.as_str());
            let mut body = String::from_str("提醒「");
            body.append(reminder.title.as_str());
            body.append("」已超时未完成");
            effects.push(Effect::Notify { title, body });
        }
    }
    assert(views(effects@) =~= timeout_effects(found));
    effects
}

/// Why a user command was refused.
#[derive(Debug, Clone, Copy, PartialEq, Eq, Structural)]
pub enum SchedulerError {
    /// No reminder has the given id.
    NotFound,
}

impl SchedulerError {
    pub open spec fn text(self) -> Seq<char> {
        "Reminder not found"@
    }

    /// The error in words.
    pub fn message(&self) -> (s: String)
        ensures
            s@ == self.text(),
    {
        String::from_str("Reminder not found")
    }
}

/// What a completion persists, in order: the instant of the completion, and
/// the log entry.
pub open spec fn completion_records(id: Seq<char>, now: Timestamp) -> Seq<EffectView> {
    seq![
        EffectView::SetLastCompleted { reminder_uuid: id, at: now },
        EffectView::AppendLog {
            reminder_uuid: id,
            action: LogAction::Completed,
            triggered_at: now,
            action_at: Some(now),
            snooze_until: None,
            note: None,
        },
    ]
}

/// First step of the command `complete`: what is to be persisted. `found`
/// is what the lookup of the reminder gave; without a reminder the command
/// is refused and nothing is to be done. The host persists the records and,
/// where that succeeded, goes on with `complete_reminder_action`.
pub fn begin_complete(found: Option<&Reminder>, uuid: &str, now: &Timestamp) -> (r: Result<
    Vec<Effect>,
    SchedulerError,
>)
    ensures
        found is None <==> r == Err::<Vec<Effect>, SchedulerError>(SchedulerError::NotFound),
        found is Some <==> r is Ok,
        r matches Ok(records) ==> views(records@) == completion_records(uuid@, *now),
{
    if found.is_none() {
        return Err(SchedulerError::NotFound);
    }
    let mut records: Vec<Effect> = Vec::new();
    records.push(Effect::SetLastCompleted { reminder_uuid: String::from_str(uuid), at: *now });
    records.push(
        Effect::AppendLog {
            reminder_uuid: String::from_str(uuid),
            action: LogAction::Completed,
            triggered_at: *now,
            action_at: Some(*now),
            snooze_until: None,
            note: None,
        },
    );
    assert(views(records@) =~= completion_records(uuid@, *now));
    Ok(records)
}

/// The queues after reminder `id` was completed: nothing stays pending for
/// it.
pub open spec fn completed(q: WakeQueuesView, id: Seq<char>) -> WakeQueuesView {
    WakeQueuesView {
        snooze: q.snooze.remove(id),
        loops: q.loops.remove(id),
        timeouts: q.timeouts.remove(id),
    }
}

/// The title of the notification of a completion.
pub open spec fn completion_title(reminder: Reminder) -> Seq<char> {
    "提醒完成: "@ + reminder.title@
}

/// The body of the notification of a completion.
pub open spec fn completion_body(reminder: Reminder) -> Seq<char> {
    "提醒「"@ + reminder.title@ + "」已完成"@
}

/// The effects of a completion: the notification, where the reminder asks
/// for one, and the event.
pub open spec fn completion_effects(reminder: Reminder, id: Seq<char>) -> Seq<EffectView> {
    let event = seq![EffectView::EmitCompleted { reminder_uuid: id }];
    if reminder.notify_on_complete {
        seq![
            EffectView::Notify {
                title: completion_title(reminder),
                body: completion_body(reminder),
            },
        ] + event
    } else {
        event
    }
}

/// Second step of the command `complete`, once its records are persisted:
/// cancels the pending snooze, loop and timeout watch of the reminder.
pub fn complete_reminder_action(queues: &mut WakeQueues, reminder: &Reminder, uuid: &str) -> (effects:
    Vec<Effect>)
    requires
        old(queues).wf(),
    ensures
        final(queues).wf(),
        final(queues)@ == completed(old(queues)@, uuid@),
        final(queues)@.is_clear_of(uuid@),
        views(effects@) == completion_effects(*reminder, uuid@),
{
    remove_loop(queues, uuid);
    remove_snooze(queues, uuid);
    remove_timeout_check(queues, uuid);
    let mut effects: Vec<Effect> = Vec::new();
    if reminder.notify_on_complete {
        let mut title = String::from_str("提醒完成: ");
        title.append(reminder.title.as_str());
        let mut body = String::from_str("提醒「");
        body.append(reminder.title.as_str());
        body.append("」已完成");
        effects.push(Effect::Notify { title, body });
    }
    effects.push(Effect::EmitCompleted { reminder_uuid: String::from_str(uuid) });
    assert(views(effects@) =~= completion_effects(*reminder, uuid@));
    effects
}

/// The note of the log entry of a snooze.
pub open spec fn snooze_note(minutes: int) -> Seq<char> {
    "延迟 "@ + decimal_text(minutes) + " 分钟"@
}

/// What a snooze persists: the log entry, which records the instant at which
/// the reminder wakes.
pub open spec fn snooze_records(id: Seq<char>, minutes: int, now: Timestamp) -> Seq<EffectView> {
    seq![
        EffectView::AppendLog {
            reminder_uuid: id,
            action: LogAction::Snoozed,
            triggered_at: now,
            action_at: Some(now),
            snooze_until: Some(now.plus_minutes(minutes)),
            note: Some(snooze_note(minutes)),
        },
    ]
}

/// First step of the command `snooze`: what is to be persisted. `found` is
/// what the lookup of the reminder gave; without a reminder the command is
/// refused and nothing is to be done. The host persists the record and,
/// where that succeeded, goes on with `snooze_reminder_action`.
pub fn begin_snooze(found: Option<&Reminder>, uuid: &str, minutes: i32, now: &Timestamp) -> (r:
    Result<Vec<Effect>, SchedulerError>)
    requires
        now.wf(),
    ensures
        found is None <==> r == Err::<Vec<Effect>, SchedulerError>(SchedulerError::NotFound),
        found is Some <==> r is Ok,
        r matches Ok(records) ==> views(records@) == snooze_records(uuid@, minutes as int, *now),
{
    if found.is_none() {
        return Err(SchedulerError::NotFound);
    }
    let mut note = String::from_str("延迟 ");
    append_decimal(&mut note, minutes);
    note.append(" 分钟");
    let mut records: Vec<Effect> = Vec::new();
    records.push(
        Effect::AppendLog {
            reminder_uuid: String::from_str(uuid),
            action: LogAction::Snoozed,
            triggered_at: *now,
            action_at: Some(*now),
            snooze_until: Some(now.add_minutes(minutes)),
            note: Some(note),
        },
    );
    assert(views(records@) =~= snooze_records(uuid@, minutes as int, *now));
    Ok(records)
}

/// The queues after reminder `id` was snoozed at `now`: its loop ends, its
/// timeout watch ends, and a snooze entry wakes it `minutes` minutes after
/// `now`.
pub open spec fn snoozed(q: WakeQueuesView, id: Seq<char>, minutes: int, now: Timestamp) -> WakeQueuesView {
    with_snooze(without_timeout(without_loop(q, id), id), id, minutes, now, now)
}

/// Second step of the command `snooze`, once its record is persisted.
/// `found` is what the lookup of the reminder gave; without a reminder the
/// command is refused and the queues stay as they are.
pub fn snooze_reminder_action(
    queues: &mut WakeQueues,
    found: Option<&Reminder>,
    uuid: &str,
    minutes: i32,
    now: &Timestamp,
) -> (r: Result<(), SchedulerError>)
    requires
        old(queues).wf(),
        now.wf(),
    ensures
        final(queues).wf(),
        found is None <==> r == Err::<(), SchedulerError>(SchedulerError::NotFound),
        found is Some <==> r is Ok,
        found is Some ==> final(queues)@ == snoozed(old(queues)@, uuid@, minutes as int, *now),
        found is None ==> final(queues)@ == old(queues)@,
{
    if found.is_none() {
        return Err(SchedulerError::NotFound);
    }
    remove_loop(queues, uuid);
    remove_timeout_check(queues, uuid);
    add_snooze(queues, uuid, minutes, *now, now);
    Ok(())
}

/// What a dismissal persists: the log entry.
pub open spec fn dismissal_records(id: Seq<char>, now: Timestamp) -> Seq<EffectView> {
    seq![
        EffectView::AppendLog {
            reminder_uuid: id,
            action: LogAction::Dismissed,
            triggered_at: now,
            action_at: Some(now),
            snooze_until: None,
            note: None,
        },
    ]
}

/// First step of the command `dismiss`: what is to be persisted. `found` is
/// what the lookup of the reminder gave; without a reminder the command is
/// refused and nothing is to be done. The host persists the record and,
/// where that succeeded, goes on with `dismiss_reminder_action`.
pub fn begin_dismiss(found: Option<&Reminder>, uuid: &str, now: &Timestamp) -> (r: Result<
    Vec<Effect>,
    SchedulerError,
>)
    ensures
        found is None <==> r == Err::<Vec<Effect>, SchedulerError>(SchedulerError::NotFound),
        found is Some <==> r is Ok,
        r matches Ok(records) ==> views(records@) == dismissal_records(uuid@, *now),
{
    if found.is_none() {
        return Err(SchedulerError::NotFound);
    }
    let mut records: Vec<Effect> = Vec::new();
    records.push(
        Effect::AppendLog {
            reminder_uuid: String::from_str(uuid),
            action: LogAction::Dismissed,
            triggered_at: *now,
            action_at: Some(*now),
            snooze_until: None,
            note: None,
        },
    );
    assert(views(records@) =~= dismissal_records(uuid@, *now));
    Ok(records)
}

/// A dismissed reminder comes back: it repeats on close and has an interval
/// for that.
pub open spec fn repeats_on_close(reminder: Reminder) -> bool {
    reminder.repeat_on_close && reminder.repeat_interval is Some
}

/// The queues after reminder `id` was dismissed at `now`: its snooze entry
/// and its timeout watch are gone; then a reminder that repeats on close is
/// snoozed for its repeat interval, and keeps its loop entry, while any
/// other reminder loses its loop entry.
pub open spec fn dismissed(
    q: WakeQueuesView,
    reminder: Reminder,
    id: Seq<char>,
    now: Timestamp,
) -> WakeQueuesView {
    let cleared = without_timeout(without_snooze(q, id), id);
    if repeats_on_close(reminder) {
        with_snooze(cleared, id, reminder.repeat_interval->0 as int, now, now)
    } else {
        without_loop(cleared, id)
    }
}

/// Second step of the command `dismiss`, once its record is persisted.
pub fn dismiss_reminder_action(
    queues: &mut WakeQueues,
    reminder: &Reminder,
    uuid: &str,
    now: &Timestamp,
) -> (effects: Vec<Effect>)
    requires
        old(queues).wf(),
        now.wf(),
    ensures
        final(queues).wf(),
        final(queues)@ == dismissed(old(queues)@, *reminder, uuid@, *now),
        views(effects@) == seq![EffectView::EmitDismissed { reminder_uuid: uuid@ }],
{
    remove_snooze(queues, uuid);
    remove_timeout_check(queues, uuid);
    let repeat = if reminder.repeat_on_close {
        reminder.repeat_interval
    } else {
        None
    };
    match repeat {
        Some(interval) => add_snooze(queues, uuid, interval, *now, now),
        None => remove_loop(queues, uuid),
    }
    let mut effects: Vec<Effect> = Vec::new();
    effects.push(Effect::EmitDismissed { reminder_uuid: String::from_str(uuid) });
    assert(views(effects@) =~= seq![EffectView::EmitDismissed { reminder_uuid: uuid@ }]);
    effects
}

/// Seconds between two ticks of the engine.
pub const TICK_SECONDS: u64 = 60;

/// One of the four checks that make up a tick.
#[derive(Debug, Clone, Copy, PartialEq, Eq, Structural)]
pub enum TickCheck {
    /// The regular schedule: `check_reminders`.
    Reminders,
    /// The snooze queue: `check_snooze_queue`.
    SnoozeQueue,
    /// The loop queue: `check_loop_queue`.
    LoopQueue,
    /// The timeout queue: `check_timeout_queue`.
    TimeoutQueue,
}

impl TickCheck {
    /// The checks of a tick in the order in which they run.
    pub open spec fn order() -> Seq<TickCheck> {
        seq![
            TickCheck::Reminders,
            TickCheck::SnoozeQueue,
            TickCheck::LoopQueue,
            TickCheck::TimeoutQueue,
        ]
    }

    /// The check with which a tick begins.
    pub fn first() -> (c: TickCheck)
        ensures
            c == Self::order()[0],
    {
        TickCheck::Reminders
    }

    /// The check that follows this one within a tick, `None` after the last.
    pub fn next(&self) -> (r: Option<TickCheck>)
        ensures
            forall|i: int|
                0 <= i < 4 && *self == #[trigger] Self::order()[i] ==> r == (if i < 3 {
                    Some(Self::order()[i + 1])
                } else {
                    None
                }),
            exists|i: int| 0 <= i < 4 && *self == #[trigger] Self::order()[i],
    {
        let r = match self {
            TickCheck::Reminders => Some(TickCheck::SnoozeQueue),
            TickCheck::SnoozeQueue => Some(TickCheck::LoopQueue),
            TickCheck::LoopQueue => Some(TickCheck::TimeoutQueue),
            TickCheck::TimeoutQueue => None,
        };
        proof {
            let order = Self::order();
            assert(order[0] == TickCheck::Reminders && order[1] == TickCheck::SnoozeQueue
                && order[2] == TickCheck::LoopQueue && order[3] == TickCheck::TimeoutQueue);
        }
        r
    }
}

/// Seconds to wait before the first tick, so that ticks fall on minute
/// boundaries: none on a boundary, else what is left of the minute.
pub fn first_tick_delay(now: &LocalMoment) -> (wait: Option<u64>)
    requires
        now.wf(),
    ensures
        wait == (if now.second == 0 {
            None
        } else {
            Some((TICK_SECONDS - now.second) as u64)
        }),
        wait matches Some(secs) ==> 0 < secs < TICK_SECONDS,
{
    let wait_secs: u64 = TICK_SECONDS - now.second as u64;
    if wait_secs > 0 && wait_secs < TICK_SECONDS {
        Some(wait_secs)
    } else {
        None
    }
}

} // verus!
