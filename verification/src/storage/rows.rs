//! Reading records from the rows of the repository.

use crate::models::reminder::{RemindType, Reminder, ReminderLink, SyncStatus};
use crate::models::reminder_log::{LogAction, ReminderLog};
use crate::storage::codec::{
    days_from_json, instant_of, is_days_of, optional_instant_of, optional_timestamp,
    timestamp_from_text,
};
use crate::time::Timestamp;
use vstd::prelude::*;

verus! {

/// A row of the table of reminders, column by column as it is stored:
/// instants as RFC 3339, lists of days as JSON, flags as 0 and 1.
#[derive(Debug, Clone)]
pub struct ReminderRow {
    pub id: i64,
    pub uuid: String,
    pub user_id: Option<String>,
    pub title: String,
    pub content: String,
    pub remind_time: String,
    pub remind_type: String,
    pub weekdays: Option<String>,
    pub monthdays: Option<String>,
    pub is_enabled: i32,
    pub repeat_on_close: i32,
    pub repeat_interval: Option<i32>,
    pub is_loop: i32,
    pub loop_interval: Option<i32>,
    pub notify_on_trigger: i32,
    pub notify_on_complete: i32,
    pub notify_on_timeout: i32,
    pub timeout_minutes: Option<i32>,
    pub last_triggered_at: Option<String>,
    pub last_completed_at: Option<String>,
    pub sort_order: i32,
    pub created_at: String,
    pub updated_at: String,
    pub deleted_at: Option<String>,
    pub version: i32,
    pub sync_status: String,
    pub sync_at: Option<String>,
}

/// A stored flag is set.
pub open spec fn is_set(flag: i32) -> bool {
    flag == 1
}

/// The instant written in `text`, and `fallback` where the text is none.
pub open spec fn instant_or(text: Seq<char>, fallback: Timestamp) -> Timestamp {
    match instant_of(text) {
        Some(at) => at,
        None => fallback,
    }
}

fn timestamp_or(text: &str, fallback: Timestamp) -> (at: Timestamp)
    ensures
        at == instant_or(text@, fallback),
{
    match timestamp_from_text(text) {
        Some(at) => at,
        None => fallback,
    }
}

/// The reminder that a row holds, with the links as the host read them.
/// Text columns are taken over as they are; a kind or a status with an
/// unknown name is the default one; a flag is set where it is 1; an instant
/// that cannot be read is absent, and `now` for the instants of creation and
/// of the last update; a list of days that cannot be read is absent.
pub fn row_to_reminder(row: ReminderRow, links: Option<Vec<ReminderLink>>, now: Timestamp) -> (r:
    Reminder)
    ensures
        r.id == Some(row.id),
        r.uuid == row.uuid,
        r.user_id == row.user_id,
        r.title == row.title,
        r.content == row.content,
        r.links == links,
        r.remind_time == row.remind_time,
        r.remind_type == RemindType::parse(row.remind_type@),
        is_days_of(r.weekdays, row.weekdays),
        is_days_of(r.monthdays, row.monthdays),
        r.is_enabled == is_set(row.is_enabled),
        r.repeat_on_close == is_set(row.repeat_on_close),
        r.repeat_interval == row.repeat_interval,
        r.is_loop == is_set(row.is_loop),
        r.loop_interval == row.loop_interval,
        r.notify_on_trigger == is_set(row.notify_on_trigger),
        r.notify_on_complete == is_set(row.notify_on_complete),
        r.notify_on_timeout == is_set(row.notify_on_timeout),
        r.timeout_minutes == row.timeout_minutes,
        r.last_triggered_at == optional_instant_of(row.last_triggered_at),
        r.last_completed_at == optional_instant_of(row.last_completed_at),
        r.sort_order == row.sort_order,
        r.created_at == instant_or(row.created_at@, now),
        r.updated_at == instant_or(row.updated_at@, now),
        r.deleted_at == optional_instant_of(row.deleted_at),
        r.version == row.version,
        r.sync_status == SyncStatus::parse(row.sync_status@),
        r.sync_at == optional_instant_of(row.sync_at),
{
    let remind_type = RemindType::from_str(row.remind_type.as_str());
    let sync_status = SyncStatus::from_str(row.sync_status.as_str());
    let weekdays = days_from_json(&row.weekdays);
    let monthdays = days_from_json(&row.monthdays);
    let last_triggered_at = optional_timestamp(&row.last_triggered_at);
    let last_completed_at = optional_timestamp(&row.last_completed_at);
    let created_at = timestamp_or(row.created_at.as_str(), now);
    let updated_at = timestamp_or(row.updated_at.as_str(), now);
    let deleted_at = optional_timestamp(&row.deleted_at);
    let sync_at = optional_timestamp(&row.sync_at);
    Reminder {
        id: Some(row.id),
        uuid: row.uuid,
        user_id: row.user_id,
        title: row.title,
        content: row.content,
        links,
        remind_time: row.remind_time,
        remind_type,
        weekdays,
        monthdays,
        is_enabled: row.is_enabled == 1,
        repeat_on_close: row.repeat_on_close == 1,
        repeat_interval: row.repeat_interval,
        is_loop: row.is_loop == 1,
        loop_interval: row.loop_interval,
        notify_on_trigger: row.notify_on_trigger == 1,
        notify_on_complete: row.notify_on_complete == 1,
        notify_on_timeout: row.notify_on_timeout == 1,
        timeout_minutes: row.timeout_minutes,
        last_triggered_at,
        last_completed_at,
        sort_order: row.sort_order,
        created_at,
        updated_at,
        deleted_at,
        version: row.version,
        sync_status,
        sync_at,
    }
}

/// A row of the log, column by column as it is stored.
#[derive(Debug, Clone)]
pub struct LogRow {
    pub id: i64,
    pub uuid: String,
    pub reminder_uuid: String,
    pub action: String,
    pub triggered_at: String,
    pub action_at: Option<String>,
    pub snooze_until: Option<String>,
    pub note: Option<String>,
    pub created_at: String,
    pub sync_status: String,
    pub sync_at: Option<String>,
}

/// The log entry that a row holds. An action or a status with an unknown
/// name is the default one; an instant that cannot be read is absent, and
/// `now` for the instants of the firing and of creation.
pub fn row_to_log(row: LogRow, now: Timestamp) -> (r: ReminderLog)
    ensures
        r.id == Some(row.id),
        r.uuid == row.uuid,
        r.reminder_uuid == row.reminder_uuid,
        r.action == LogAction::parse(row.action@),
        r.triggered_at == instant_or(row.triggered_at@, now),
        r.action_at == optional_instant_of(row.action_at),
        r.snooze_until == optional_instant_of(row.snooze_until),
        r.note == row.note,
        r.created_at == instant_or(row.created_at@, now),
        r.sync_status == SyncStatus::parse(row.sync_status@),
        r.sync_at == optional_instant_of(row.sync_at),
{
    let action = LogAction::from_str(row.action.as_str());
    let sync_status = SyncStatus::from_str(row.sync_status.as_str());
    let triggered_at = timestamp_or(row.triggered_at.as_str(), now);
    let action_at = optional_timestamp(&row.action_at);
    let snooze_until = optional_timestamp(&row.snooze_until);
    let created_at = timestamp_or(row.created_at.as_str(), now);
    let sync_at = optional_timestamp(&row.sync_at);
    ReminderLog {
        id: Some(row.id),
        uuid: row.uuid,
        reminder_uuid: row.reminder_uuid,
        action,
        triggered_at,
        action_at,
        snooze_until,
        note: row.note,
        created_at,
        sync_status,
        sync_at,
    }
}

} // verus!
