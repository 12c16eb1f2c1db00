use reminder_scheduler::models::reminder::{RemindType, Reminder, SyncStatus};
use reminder_scheduler::models::reminder_log::LogAction;
use reminder_scheduler::scheduler::effects::Effect;
use reminder_scheduler::scheduler::items::{LoopItem, SnoozeItem, TimeoutWatch, WakeQueues};
use reminder_scheduler::scheduler::manager::{
    add_loop, add_snooze, add_timeout_check, begin_complete, begin_dismiss, begin_snooze,
    begin_replay, begin_trigger, check_loop_queue, check_reminders, check_reminders_given,
    check_snooze_queue, log_trigger,
    check_timeout_queue, complete_reminder_action, dismiss_reminder_action, fire_looped,
    fire_snoozed, first_tick_delay, handle_timeout, remove_loop, remove_snooze,
    remove_timeout_check, snooze_reminder_action, trigger_reminder, trigger_reminder_internal,
    SchedulerError, TickCheck, TICK_SECONDS,
};
use reminder_scheduler::time::{CalendarDate, LocalMoment, Timestamp};

// 2024-04-30 09:00:00 UTC, a Tuesday.
const NINE: i64 = 1_714_467_600;

fn at(secs: i64) -> Timestamp {
    Timestamp { secs, nanos: 0 }
}

fn nine_local() -> LocalMoment {
    LocalMoment::new(2024, 4, 30, 9, 0, 0, 2).unwrap()
}

fn daily(uuid: &str) -> Reminder {
    Reminder {
        id: Some(1),
        uuid: uuid.to_string(),
        user_id: None,
        title: "Stand up".to_string(),
        content: "Stretch a little".to_string(),
        links: None,
        remind_time: "09:00".to_string(),
        remind_type: RemindType::Daily,
        weekdays: None,
        monthdays: None,
        is_enabled: true,
        repeat_on_close: false,
        repeat_interval: None,
        is_loop: false,
        loop_interval: None,
        notify_on_trigger: false,
        notify_on_complete: false,
        notify_on_timeout: false,
        timeout_minutes: None,
        last_triggered_at: None,
        last_completed_at: None,
        sort_order: 0,
        created_at: at(1_700_000_000),
        updated_at: at(1_700_000_000),
        deleted_at: None,
        version: 1,
        sync_status: SyncStatus::Pending,
        sync_at: None,
    }
}

fn triggered_log(uuid: &str, now: Timestamp, note: Option<&str>) -> Effect {
    Effect::AppendLog {
        reminder_uuid: uuid.to_string(),
        action: LogAction::Triggered,
        triggered_at: now,
        action_at: None,
        snooze_until: None,
        note: note.map(|n| n.to_string()),
    }
}

fn alert(uuid: &str) -> Effect {
    Effect::Alert { reminder_uuid: uuid.to_string() }
}

/// A firing on the regular schedule whose writes succeed.
fn fire(q: &mut WakeQueues, r: &Reminder, now: &Timestamp) -> Vec<Effect> {
    let mut effects = begin_trigger(r, now);
    effects.extend(log_trigger(r, true, now));
    effects.extend(trigger_reminder(q, r, true, true, now));
    effects
}

/// The replay of a snoozed firing whose log entry is appended.
fn replay_snoozed(q: &mut WakeQueues, found: Option<&Reminder>, now: &Timestamp) -> Vec<Effect> {
    let mut effects = begin_replay(found, now);
    effects.extend(fire_snoozed(q, found, true, now));
    effects
}

/// The replay of a looping firing whose log entry is appended.
fn replay_looped(
    q: &mut WakeQueues,
    item: &LoopItem,
    found: Option<&Reminder>,
    now: &Timestamp,
) -> Vec<Effect> {
    let mut effects = begin_replay(found, now);
    effects.extend(fire_looped(q, item, found, true, now));
    effects
}

/// The regular-schedule check of a list, every write succeeding.
fn tick(
    q: &mut WakeQueues,
    reminders: &Vec<Reminder>,
    dates: &Vec<Option<CalendarDate>>,
    now_local: &LocalMoment,
    now: &Timestamp,
) -> Vec<Effect> {
    let mut effects = Vec::new();
    for position in check_reminders_given(reminders, dates, now_local) {
        effects.extend(fire(q, &reminders[position], now));
    }
    effects
}

fn all_empty(q: &WakeQueues) -> bool {
    q.snooze.is_empty() && q.loops.is_empty() && q.timeouts.is_empty()
}

#[test]
fn new_queues_are_empty() {
    assert!(all_empty(&WakeQueues::new()));
}

#[test]
fn add_snooze_wakes_after_the_minutes() {
    let mut q = WakeQueues::new();
    add_snooze(&mut q, "r", 5, at(NINE - 60), &at(NINE));
    assert_eq!(
        q.snooze.get("r"),
        Some(&SnoozeItem {
            reminder_uuid: "r".to_string(),
            snooze_until: at(NINE + 300),
            original_triggered_at: at(NINE - 60),
        })
    );
    assert!(q.loops.is_empty() && q.timeouts.is_empty());
}

#[test]
fn a_later_snooze_replaces_the_wake_time() {
    let mut q = WakeQueues::new();
    add_snooze(&mut q, "r", 5, at(NINE), &at(NINE));
    add_snooze(&mut q, "r", 30, at(NINE + 60), &at(NINE + 60));
    assert_eq!(q.snooze.len(), 1);
    assert_eq!(q.snooze.get("r").unwrap().snooze_until, at(NINE + 60 + 1800));
    assert!(check_snooze_queue(&mut q, &at(NINE + 300)).is_empty());
    let woken = check_snooze_queue(&mut q, &at(NINE + 60 + 1800));
    assert_eq!(woken.len(), 1);
    assert!(check_snooze_queue(&mut q, &at(NINE + 60 + 1800)).is_empty());
}

#[test]
fn add_loop_and_timeout_file_their_entries() {
    let mut q = WakeQueues::new();
    add_loop(&mut q, "r", 15, at(NINE - 900), &at(NINE));
    add_timeout_check(&mut q, "r", 10, &at(NINE));
    assert_eq!(
        q.loops.get("r"),
        Some(&LoopItem {
            reminder_uuid: "r".to_string(),
            next_loop_at: at(NINE + 900),
            original_triggered_at: at(NINE - 900),
        })
    );
    assert_eq!(
        q.timeouts.get("r"),
        Some(&TimeoutWatch { reminder_uuid: "r".to_string(), triggered_at: at(NINE), timeout_minutes: 10 })
    );
    assert!(q.snooze.is_empty());
}

#[test]
fn removals_touch_one_queue_each() {
    let mut q = WakeQueues::new();
    add_snooze(&mut q, "r", 5, at(NINE), &at(NINE));
    add_loop(&mut q, "r", 15, at(NINE), &at(NINE));
    add_timeout_check(&mut q, "r", 10, &at(NINE));
    remove_snooze(&mut q, "r");
    assert!(q.snooze.is_empty() && q.loops.contains("r") && q.timeouts.contains("r"));
    remove_loop(&mut q, "r");
    assert!(q.loops.is_empty() && q.timeouts.contains("r"));
    remove_timeout_check(&mut q, "r");
    assert!(all_empty(&q));
    remove_snooze(&mut q, "r");
    remove_loop(&mut q, "r");
    remove_timeout_check(&mut q, "r");
    assert!(all_empty(&q));
}

#[test]
fn plain_daily_reminder_fires_once_and_files_nothing() {
    let r = daily("R");
    let mut q = WakeQueues::new();
    let effects = tick(&mut q, &vec![r.clone()], &vec![None], &nine_local(), &at(NINE));
    assert_eq!(
        effects,
        vec![
            alert("R"),
            Effect::SetLastTriggered { reminder_uuid: "R".to_string(), at: at(NINE) },
            triggered_log("R", at(NINE), None),
        ]
    );
    assert!(all_empty(&q));
    let logs = effects.iter().filter(|e| matches!(e, Effect::AppendLog { .. })).count();
    assert_eq!(logs, 1);

    // With the last firing persisted, the next evaluations of the day stay quiet.
    let today = Some(CalendarDate { year: 2024, month: 4, day: 30 });
    let again = tick(&mut q, &vec![r], &vec![today], &nine_local(), &at(NINE + 1));
    assert!(again.is_empty());
    assert!(all_empty(&q));
}

#[test]
fn check_reminders_reads_the_date_of_the_last_firing_itself() {
    let r = daily("R");
    assert_eq!(check_reminders(&vec![r.clone()], &nine_local()), vec![0]);
    let mut fired = r;
    fired.last_triggered_at = Some(at(NINE));
    let local = reminder_scheduler::time::local_moment(&at(NINE)).unwrap();
    let same_day = LocalMoment::new(local.year, local.month, local.day, 9, 0, 0, local.weekday).unwrap();
    assert!(check_reminders(&vec![fired], &same_day).is_empty());
}

#[test]
fn the_check_returns_the_positions_of_what_fires_in_order() {
    let mut off = daily("off");
    off.is_enabled = false;
    let list = vec![daily("a"), off, daily("b"), daily("c")];
    let today = Some(CalendarDate { year: 2024, month: 4, day: 30 });
    assert_eq!(check_reminders_given(&list, &vec![None, None, None, None], &nine_local()), vec![0, 2, 3]);
    assert_eq!(check_reminders_given(&list, &vec![today, None, None, today], &nine_local()), vec![2]);
    assert!(check_reminders_given(&Vec::new(), &Vec::new(), &nine_local()).is_empty());
}

#[test]
fn a_firing_begins_with_the_alert_and_the_write() {
    let mut r = daily("R");
    r.notify_on_trigger = true;
    r.is_loop = true;
    r.loop_interval = Some(15);
    assert_eq!(
        begin_trigger(&r, &at(NINE)),
        vec![alert("R"), Effect::SetLastTriggered { reminder_uuid: "R".to_string(), at: at(NINE) }]
    );
}

#[test]
fn a_firing_whose_write_failed_is_abandoned() {
    let mut r = daily("R");
    r.notify_on_trigger = true;
    r.is_loop = true;
    r.loop_interval = Some(15);
    r.timeout_minutes = Some(10);
    r.notify_on_timeout = true;
    let mut q = WakeQueues::new();
    add_snooze(&mut q, "other", 5, at(NINE), &at(NINE));
    assert!(log_trigger(&r, false, &at(NINE)).is_empty());
    for (written, logged) in [(false, false), (false, true), (true, false)] {
        assert!(trigger_reminder(&mut q, &r, written, logged, &at(NINE)).is_empty());
        assert!(trigger_reminder_internal(&mut q, &r, false, written, logged, &at(NINE)).is_empty());
        assert!(q.loops.is_empty() && q.timeouts.is_empty());
        assert_eq!(q.snooze.len(), 1);
    }
    // The same firing goes ahead once both writes succeeded.
    assert_eq!(log_trigger(&r, true, &at(NINE)), vec![triggered_log("R", at(NINE), None)]);
    let effects = trigger_reminder(&mut q, &r, true, true, &at(NINE));
    assert_eq!(
        effects,
        vec![Effect::Notify {
            title: "提醒触发: Stand up".to_string(),
            body: "Stretch a little".to_string()
        }]
    );
    assert!(q.loops.contains("R") && q.timeouts.contains("R"));
}

#[test]
fn a_replay_whose_log_entry_failed_is_abandoned() {
    let mut r = daily("R");
    r.notify_on_trigger = true;
    r.is_loop = true;
    r.loop_interval = Some(15);
    r.timeout_minutes = Some(10);
    r.notify_on_timeout = true;
    let mut q = WakeQueues::new();
    assert_eq!(
        begin_replay(Some(&r), &at(NINE)),
        vec![alert("R"), triggered_log("R", at(NINE), Some("重复提醒"))]
    );
    assert!(fire_snoozed(&mut q, Some(&r), false, &at(NINE)).is_empty());
    assert!(all_empty(&q));
    let item = LoopItem {
        reminder_uuid: "R".to_string(),
        next_loop_at: at(NINE),
        original_triggered_at: at(NINE - 900),
    };
    assert!(fire_looped(&mut q, &item, Some(&r), false, &at(NINE)).is_empty());
    assert!(all_empty(&q));
    // A replay has no write of the last firing to wait for.
    assert_eq!(trigger_reminder_internal(&mut q, &r, true, false, true, &at(NINE)).len(), 1);
    assert!(q.loops.contains("R") && q.timeouts.contains("R"));
    assert!(trigger_reminder_internal(&mut q, &r, true, true, false, &at(NINE + 1)).is_empty());
    assert_eq!(q.loops.get("R").unwrap().original_triggered_at, at(NINE));
}

#[test]
fn the_check_passes_over_disabled_deleted_and_undue_reminders() {
    let mut disabled = daily("disabled");
    disabled.is_enabled = false;
    let mut deleted = daily("deleted");
    deleted.deleted_at = Some(at(NINE - 1));
    let mut later = daily("later");
    later.remind_time = "09:01".to_string();
    let due = daily("due");
    let mut q = WakeQueues::new();
    let effects = tick(
        &mut q,
        &vec![disabled, deleted, later, due],
        &vec![None, None, None, None],
        &nine_local(),
        &at(NINE),
    );
    assert_eq!(
        effects,
        vec![
            alert("due"),
            Effect::SetLastTriggered { reminder_uuid: "due".to_string(), at: at(NINE) },
            triggered_log("due", at(NINE), None),
        ]
    );
}

#[test]
fn reminders_fire_in_the_order_of_the_list() {
    let mut a = daily("a");
    a.notify_on_trigger = true;
    let b = daily("b");
    let mut q = WakeQueues::new();
    let effects =
        tick(&mut q, &vec![a, b], &vec![None, None], &nine_local(), &at(NINE));
    assert_eq!(
        effects,
        vec![
            alert("a"),
            Effect::SetLastTriggered { reminder_uuid: "a".to_string(), at: at(NINE) },
            triggered_log("a", at(NINE), None),
            Effect::Notify { title: "提醒触发: Stand up".to_string(), body: "Stretch a little".to_string() },
            alert("b"),
            Effect::SetLastTriggered { reminder_uuid: "b".to_string(), at: at(NINE) },
            triggered_log("b", at(NINE), None),
        ]
    );
}

#[test]
fn a_firing_starts_the_timeout_watch_and_the_loop() {
    let mut r = daily("R");
    r.timeout_minutes = Some(10);
    r.notify_on_timeout = true;
    r.is_loop = true;
    r.loop_interval = Some(15);
    let mut q = WakeQueues::new();
    let effects = fire(&mut q, &r, &at(NINE));
    assert_eq!(effects.len(), 3);
    assert_eq!(
        q.timeouts.get("R"),
        Some(&TimeoutWatch { reminder_uuid: "R".to_string(), triggered_at: at(NINE), timeout_minutes: 10 })
    );
    assert_eq!(
        q.loops.get("R"),
        Some(&LoopItem {
            reminder_uuid: "R".to_string(),
            next_loop_at: at(NINE + 900),
            original_triggered_at: at(NINE),
        })
    );
    assert!(q.snooze.is_empty());
}

#[test]
fn no_timeout_watch_without_the_notification_or_with_no_minutes() {
    let mut q = WakeQueues::new();
    let mut r = daily("R");
    r.timeout_minutes = Some(10);
    r.notify_on_timeout = false;
    fire(&mut q, &r, &at(NINE));
    assert!(q.timeouts.is_empty());
    r.notify_on_timeout = true;
    r.timeout_minutes = Some(0);
    fire(&mut q, &r, &at(NINE));
    assert!(q.timeouts.is_empty());
    r.timeout_minutes = Some(-5);
    fire(&mut q, &r, &at(NINE));
    assert!(q.timeouts.is_empty());
    r.timeout_minutes = None;
    fire(&mut q, &r, &at(NINE));
    assert!(q.timeouts.is_empty());
    r.is_loop = true;
    r.loop_interval = None;
    fire(&mut q, &r, &at(NINE));
    assert!(q.loops.is_empty());
    r.is_loop = false;
    r.loop_interval = Some(3);
    fire(&mut q, &r, &at(NINE));
    assert!(q.loops.is_empty());
}

#[test]
fn a_replay_leaves_the_last_firing_alone_and_says_so_in_the_log() {
    let mut r = daily("R");
    r.notify_on_trigger = true;
    let mut q = WakeQueues::new();
    let effects = replay_snoozed(&mut q, Some(&r), &at(NINE));
    assert_eq!(
        effects,
        vec![
            alert("R"),
            triggered_log("R", at(NINE), Some("重复提醒")),
            Effect::Notify { title: "提醒触发: Stand up".to_string(), body: "Stretch a little".to_string() },
        ]
    );
}

#[test]
fn a_snoozed_reminder_fires_again_when_it_wakes() {
    let mut r = daily("R");
    r.is_loop = true;
    r.loop_interval = Some(20);
    let mut q = WakeQueues::new();
    assert_eq!(snooze_reminder_action(&mut q, Some(&r), "R", 5, &at(NINE)), Ok(()));
    assert!(check_snooze_queue(&mut q, &at(NINE + 299)).is_empty());
    let woken = check_snooze_queue(&mut q, &at(NINE + 300));
    assert_eq!(woken.len(), 1);
    assert_eq!(woken[0].reminder_uuid, "R");
    assert_eq!(woken[0].original_triggered_at, at(NINE));
    assert!(q.snooze.is_empty());
    let effects = replay_snoozed(&mut q, Some(&r), &at(NINE + 300));
    assert_eq!(effects, vec![alert("R"), triggered_log("R", at(NINE + 300), Some("重复提醒"))]);
    // The new loop entry counts from the replay.
    assert_eq!(
        q.loops.get("R"),
        Some(&LoopItem {
            reminder_uuid: "R".to_string(),
            next_loop_at: at(NINE + 300 + 1200),
            original_triggered_at: at(NINE + 300),
        })
    );
}

#[test]
fn a_snoozed_reminder_that_is_gone_or_disabled_is_passed_over() {
    let mut q = WakeQueues::new();
    assert!(replay_snoozed(&mut q, None, &at(NINE)).is_empty());
    let mut r = daily("R");
    r.is_enabled = false;
    r.is_loop = true;
    r.loop_interval = Some(20);
    assert!(replay_snoozed(&mut q, Some(&r), &at(NINE)).is_empty());
    assert!(all_empty(&q));
}

#[test]
fn a_loop_keeps_the_instant_of_its_first_firing() {
    let mut r = daily("R");
    r.is_loop = true;
    r.loop_interval = Some(15);
    let mut q = WakeQueues::new();
    fire(&mut q, &r, &at(NINE));
    assert!(check_loop_queue(&mut q, &at(NINE + 899)).is_empty());
    let woken = check_loop_queue(&mut q, &at(NINE + 900));
    assert_eq!(woken.len(), 1);
    assert!(q.loops.is_empty());
    // The interval is read from the reminder as it is now.
    r.loop_interval = Some(30);
    let effects = replay_looped(&mut q, &woken[0], Some(&r), &at(NINE + 900));
    assert_eq!(effects, vec![alert("R"), triggered_log("R", at(NINE + 900), Some("重复提醒"))]);
    assert_eq!(
        q.loops.get("R"),
        Some(&LoopItem {
            reminder_uuid: "R".to_string(),
            next_loop_at: at(NINE + 900 + 1800),
            original_triggered_at: at(NINE),
        })
    );
}

#[test]
fn a_loop_ends_when_the_reminder_is_disabled_deleted_or_no_longer_loops() {
    let mut r = daily("R");
    r.is_loop = true;
    r.loop_interval = Some(15);
    let mut q = WakeQueues::new();
    fire(&mut q, &r, &at(NINE));
    let woken = check_loop_queue(&mut q, &at(NINE + 900));
    let mut disabled = r.clone();
    disabled.is_enabled = false;
    assert!(replay_looped(&mut q, &woken[0], Some(&disabled), &at(NINE + 900)).is_empty());
    assert!(all_empty(&q));
    assert!(replay_looped(&mut q, &woken[0], None, &at(NINE + 900)).is_empty());
    assert!(all_empty(&q));
    let mut once_more = r.clone();
    once_more.is_loop = false;
    assert_eq!(replay_looped(&mut q, &woken[0], Some(&once_more), &at(NINE + 900)).len(), 2);
    assert!(all_empty(&q));
}

#[test]
fn an_unanswered_firing_times_out_after_its_minutes() {
    let mut r = daily("R");
    r.timeout_minutes = Some(10);
    r.notify_on_timeout = true;
    let mut q = WakeQueues::new();
    let fired = tick(&mut q, &vec![r.clone()], &vec![None], &nine_local(), &at(NINE));
    assert_eq!(fired.len(), 3);
    assert!(q.timeouts.contains("R"));
    assert!(check_timeout_queue(&mut q, &at(NINE + 599)).is_empty());
    let timed_out = check_timeout_queue(&mut q, &at(NINE + 600));
    assert_eq!(
        timed_out,
        vec![TimeoutWatch { reminder_uuid: "R".to_string(), triggered_at: at(NINE), timeout_minutes: 10 }]
    );
    let effects = handle_timeout(Some(&r));
    assert_eq!(
        effects,
        vec![
            Effect::EmitTimeout { reminder_uuid: "R".to_string() },
            Effect::Notify {
                title: "提醒超时: Stand up".to_string(),
                body: "提醒「Stand up」已超时未完成".to_string(),
            },
        ]
    );
    assert!(all_empty(&q));
    assert!(check_timeout_queue(&mut q, &at(NINE + 600)).is_empty());
}

#[test]
fn a_timeout_of_a_reminder_that_is_gone_asks_for_nothing() {
    assert!(handle_timeout(None).is_empty());
    let mut r = daily("R");
    r.notify_on_timeout = false;
    assert_eq!(handle_timeout(Some(&r)), vec![Effect::EmitTimeout { reminder_uuid: "R".to_string() }]);
}

#[test]
fn a_loop_firing_files_a_timeout_watch_of_its_own() {
    let mut r = daily("R");
    r.timeout_minutes = Some(10);
    r.notify_on_timeout = true;
    r.is_loop = true;
    r.loop_interval = Some(5);
    let mut q = WakeQueues::new();
    fire(&mut q, &r, &at(NINE));
    let woken = check_loop_queue(&mut q, &at(NINE + 300));
    replay_looped(&mut q, &woken[0], Some(&r), &at(NINE + 300));
    // The replay files a watch of its own under the same id, so the watch
    // counts from the replay.
    assert_eq!(q.timeouts.get("R").unwrap().triggered_at, at(NINE + 300));
}

#[test]
fn complete_is_refused_for_an_unknown_reminder() {
    assert_eq!(begin_complete(None, "R", &at(NINE)), Err(SchedulerError::NotFound));
    assert_eq!(SchedulerError::NotFound.message(), "Reminder not found");
}

#[test]
fn complete_persists_then_clears_every_queue() {
    let mut r = daily("R");
    r.notify_on_complete = true;
    let records = begin_complete(Some(&r), "R", &at(NINE)).unwrap();
    assert_eq!(
        records,
        vec![
            Effect::SetLastCompleted { reminder_uuid: "R".to_string(), at: at(NINE) },
            Effect::AppendLog {
                reminder_uuid: "R".to_string(),
                action: LogAction::Completed,
                triggered_at: at(NINE),
                action_at: Some(at(NINE)),
                snooze_until: None,
                note: None,
            },
        ]
    );
    let mut q = WakeQueues::new();
    add_snooze(&mut q, "R", 5, at(NINE), &at(NINE));
    add_loop(&mut q, "R", 5, at(NINE), &at(NINE));
    add_timeout_check(&mut q, "R", 5, &at(NINE));
    add_loop(&mut q, "other", 5, at(NINE), &at(NINE));
    let effects = complete_reminder_action(&mut q, &r, "R");
    assert_eq!(
        effects,
        vec![
            Effect::Notify {
                title: "提醒完成: Stand up".to_string(),
                body: "提醒「Stand up」已完成".to_string(),
            },
            Effect::EmitCompleted { reminder_uuid: "R".to_string() },
        ]
    );
    assert!(q.snooze.is_empty() && q.timeouts.is_empty());
    assert!(!q.loops.contains("R"));
    assert!(q.loops.contains("other"));
    r.notify_on_complete = false;
    assert_eq!(
        complete_reminder_action(&mut q, &r, "R"),
        vec![Effect::EmitCompleted { reminder_uuid: "R".to_string() }]
    );
}

#[test]
fn snooze_logs_the_wake_time_and_supersedes_loop_and_timeout() {
    let r = daily("R");
    let records = begin_snooze(Some(&r), "R", 5, &at(NINE)).unwrap();
    assert_eq!(
        records,
        vec![Effect::AppendLog {
            reminder_uuid: "R".to_string(),
            action: LogAction::Snoozed,
            triggered_at: at(NINE),
            action_at: Some(at(NINE)),
            snooze_until: Some(at(NINE + 300)),
            note: Some("延迟 5 分钟".to_string()),
        }]
    );
    let mut q = WakeQueues::new();
    add_loop(&mut q, "R", 5, at(NINE), &at(NINE));
    add_timeout_check(&mut q, "R", 5, &at(NINE));
    assert_eq!(snooze_reminder_action(&mut q, Some(&r), "R", 5, &at(NINE)), Ok(()));
    assert!(q.loops.is_empty() && q.timeouts.is_empty());
    assert_eq!(
        q.snooze.get("R"),
        Some(&SnoozeItem {
            reminder_uuid: "R".to_string(),
            snooze_until: at(NINE + 300),
            original_triggered_at: at(NINE),
        })
    );
}

#[test]
fn the_snooze_note_writes_the_minutes_in_decimal() {
    for minutes in [0, 7, 10, 45, 120, 1_000_000, i32::MAX, -1, -90, i32::MIN] {
        let r = daily("R");
        let records = begin_snooze(Some(&r), "R", minutes, &at(NINE)).unwrap();
        match &records[0] {
            Effect::AppendLog { note, .. } => {
                assert_eq!(note.as_deref(), Some(format!("延迟 {} 分钟", minutes).as_str()));
            }
            other => panic!("unexpected effect {:?}", other),
        }
    }
}

#[test]
fn snooze_is_refused_for_an_unknown_reminder() {
    assert_eq!(begin_snooze(None, "R", 5, &at(NINE)), Err(SchedulerError::NotFound));
    let mut q = WakeQueues::new();
    add_loop(&mut q, "R", 5, at(NINE), &at(NINE));
    add_timeout_check(&mut q, "R", 5, &at(NINE));
    assert_eq!(
        snooze_reminder_action(&mut q, None, "R", 5, &at(NINE)),
        Err(SchedulerError::NotFound)
    );
    assert!(q.snooze.is_empty());
    assert!(q.loops.contains("R") && q.timeouts.contains("R"));
}

#[test]
fn dismiss_is_refused_for_an_unknown_reminder() {
    assert_eq!(begin_dismiss(None, "R", &at(NINE)), Err(SchedulerError::NotFound));
}

#[test]
fn dismiss_without_repeat_clears_the_loop() {
    let r = daily("R");
    assert_eq!(
        begin_dismiss(Some(&r), "R", &at(NINE)).unwrap(),
        vec![Effect::AppendLog {
            reminder_uuid: "R".to_string(),
            action: LogAction::Dismissed,
            triggered_at: at(NINE),
            action_at: Some(at(NINE)),
            snooze_until: None,
            note: None,
        }]
    );
    let mut q = WakeQueues::new();
    add_snooze(&mut q, "R", 5, at(NINE), &at(NINE));
    add_loop(&mut q, "R", 5, at(NINE), &at(NINE));
    add_timeout_check(&mut q, "R", 5, &at(NINE));
    let effects = dismiss_reminder_action(&mut q, &r, "R", &at(NINE));
    assert_eq!(effects, vec![Effect::EmitDismissed { reminder_uuid: "R".to_string() }]);
    assert!(all_empty(&q));
}

#[test]
fn dismiss_with_repeat_snoozes_and_keeps_the_loop() {
    let mut r = daily("R");
    r.repeat_on_close = true;
    r.repeat_interval = Some(5);
    let mut q = WakeQueues::new();
    add_loop(&mut q, "R", 15, at(NINE - 60), &at(NINE - 60));
    add_timeout_check(&mut q, "R", 10, &at(NINE - 60));
    let before = q.loops.get("R").cloned();
    dismiss_reminder_action(&mut q, &r, "R", &at(NINE));
    assert_eq!(q.snooze.get("R").unwrap().snooze_until, at(NINE + 300));
    assert_eq!(q.snooze.get("R").unwrap().original_triggered_at, at(NINE));
    assert_eq!(q.loops.get("R").cloned(), before);
    assert!(q.timeouts.is_empty());
}

#[test]
fn dismiss_with_repeat_but_no_interval_ends_the_loop() {
    let mut r = daily("R");
    r.repeat_on_close = true;
    r.repeat_interval = None;
    let mut q = WakeQueues::new();
    add_loop(&mut q, "R", 15, at(NINE), &at(NINE));
    dismiss_reminder_action(&mut q, &r, "R", &at(NINE));
    assert!(all_empty(&q));
}

#[test]
fn the_first_tick_waits_for_the_minute_boundary() {
    assert_eq!(TICK_SECONDS, 60);
    let on_boundary = LocalMoment::new(2024, 4, 30, 9, 0, 0, 2).unwrap();
    assert_eq!(first_tick_delay(&on_boundary), None);
    let early = LocalMoment::new(2024, 4, 30, 9, 0, 1, 2).unwrap();
    assert_eq!(first_tick_delay(&early), Some(59));
    let late = LocalMoment::new(2024, 4, 30, 9, 0, 59, 2).unwrap();
    assert_eq!(first_tick_delay(&late), Some(1));
}

#[test]
fn the_checks_of_a_tick_run_in_their_order() {
    let mut order = vec![TickCheck::first()];
    while let Some(next) = order.last().unwrap().next() {
        order.push(next);
    }
    assert_eq!(
        order,
        vec![
            TickCheck::Reminders,
            TickCheck::SnoozeQueue,
            TickCheck::LoopQueue,
            TickCheck::TimeoutQueue,
        ]
    );
}

#[test]
fn the_check_is_not_misled_by_a_firing_of_another_day() {
    let mut r = daily("R");
    r.last_triggered_at = Some(at(NINE - 5 * 86_400));
    assert_eq!(check_reminders(&vec![r], &nine_local()), vec![0]);
}
