//! Reminders: their recurrence, their deferred-action settings and the
//! requests that create and update them.

use crate::text::same_text;
use crate::time::Timestamp;
use vstd::prelude::*;
use vstd::string::*;

verus! {

/// How a reminder recurs.
#[derive(Debug, Clone, Copy, PartialEq, Eq, Structural)]
pub enum RemindType {
    Daily,
    Once,
    Weekday,
    Monthly,
}

impl Default for RemindType {
    fn default() -> (r: Self)
        ensures
            r == RemindType::Daily,
    {
        RemindType::Daily
    }
}

impl RemindType {
    /// The name under which the kind is stored.
    pub open spec fn name(self) -> Seq<char> {
        match self {
            RemindType::Daily => "daily"@,
            RemindType::Once => "once"@,
            RemindType::Weekday => "weekday"@,
            RemindType::Monthly => "monthly"@,
        }
    }

    /// The kind that a stored name stands for; any unknown name stands for
    /// `Daily`.
    pub open spec fn parse(s: Seq<char>) -> RemindType {
        if s == "once"@ {
            RemindType::Once
        } else if s == "weekday"@ {
            RemindType::Weekday
        } else if s == "monthly"@ {
            RemindType::Monthly
        } else {
            RemindType::Daily
        }
    }

    pub fn as_str(&self) -> (s: &'static str)
        ensures
            s@ == self.name(),
    {
        match self {
            RemindType::Daily => "daily",
            RemindType::Once => "once",
            RemindType::Weekday => "weekday",
            RemindType::Monthly => "monthly",
        }
    }

    pub fn from_str(s: &str) -> (r: Self)
        ensures
            r == Self::parse(s@),
    {
        if same_text(s, "once") {
            RemindType::Once
        } else if same_text(s, "weekday") {
            RemindType::Weekday
        } else if same_text(s, "monthly") {
            RemindType::Monthly
        } else {
            RemindType::Daily
        }
    }

    /// Every kind is read back from its own name.
    pub proof fn lemma_name_round_trip(self)
        ensures
            Self::parse(self.name()) == self,
    {
        reveal_strlit("daily");
        reveal_strlit("once");
        reveal_strlit("weekday");
        reveal_strlit("monthly");
        assert("daily"@.len() == 5 && "once"@.len() == 4);
        assert("weekday"@.len() == 7 && "monthly"@.len() == 7);
        assert("weekday"@[0] == 'w' && "monthly"@[0] == 'm');
    }
}

/// Where a record stands with respect to synchronisation.
#[derive(Debug, Clone, Copy, PartialEq, Eq, Structural)]
pub enum SyncStatus {
    Pending,
    Synced,
    Conflict,
}

impl Default for SyncStatus {
    fn default() -> (r: Self)
        ensures
            r == SyncStatus::Pending,
    {
        SyncStatus::Pending
    }
}

impl SyncStatus {
    /// The name under which the status is stored.
    pub open spec fn name(self) -> Seq<char> {
        match self {
            SyncStatus::Pending => "pending"@,
            SyncStatus::Synced => "synced"@,
            SyncStatus::Conflict => "conflict"@,
        }
    }

    /// The status that a stored name stands for; any unknown name stands for
    /// `Pending`.
    pub open spec fn parse(s: Seq<char>) -> SyncStatus {
        if s == "synced"@ {
            SyncStatus::Synced
        } else if s == "conflict"@ {
            SyncStatus::Conflict
        } else {
            SyncStatus::Pending
        }
    }

    pub fn as_str(&self) -> (s: &'static str)
        ensures
            s@ == self.name(),
    {
        match self {
            SyncStatus::Pending => "pending",
            SyncStatus::Synced => "synced",
            SyncStatus::Conflict => "conflict",
        }
    }

    pub fn from_str(s: &str) -> (r: Self)
        ensures
            r == Self::parse(s@),
    {
        if same_text(s, "synced") {
            SyncStatus::Synced
        } else if same_text(s, "conflict") {
            SyncStatus::Conflict
        } else {
            SyncStatus::Pending
        }
    }

    /// Every status is read back from its own name.
    pub proof fn lemma_name_round_trip(self)
        ensures
            Self::parse(self.name()) == self,
    {
        reveal_strlit("pending");
        reveal_strlit("synced");
        reveal_strlit("conflict");
        assert("pending"@.len() == 7 && "synced"@.len() == 6 && "conflict"@.len() == 8);
    }
}

/// Most links that a reminder may carry.
pub const MAX_LINKS: usize = 3;

/// A named web link attached to a reminder.
#[derive(Debug, Clone)]
pub struct ReminderLink {
    pub name: String,
    pub url: String,
}

impl ReminderLink {
    /// The message with which too many links are refused.
    pub open spec fn too_many_links() -> Seq<char> {
        "链接数量不能超过3个"@
    }

    /// Accepts an absent list and a list of at most `MAX_LINKS` links.
    pub fn validate_links(links: &Option<Vec<ReminderLink>>) -> (r: Result<(), String>)
        ensures
            r is Err <==> (links matches Some(list) && list@.len() > MAX_LINKS),
            r matches Err(message) ==> message@ == Self::too_many_links(),
    {
        if let Some(list) = links {
            if list.len() > MAX_LINKS {
                return Err(String::from_str("链接数量不能超过3个"));
            }
        }
        Ok(())
    }
}

/// A reminder as the engine reads it.
#[derive(Debug, Clone)]
pub struct Reminder {
    pub id: Option<i64>,
    pub uuid: String,
    pub user_id: Option<String>,
    pub title: String,
    pub content: String,
    pub links: Option<Vec<ReminderLink>>,
    /// Time of day at which the reminder fires, written `HH:MM`.
    pub remind_time: String,
    pub remind_type: RemindType,
    /// Days of the week (Monday = 1 to Sunday = 7) of a `Weekday` reminder.
    pub weekdays: Option<Vec<u8>>,
    /// Days of the month of a `Monthly` reminder.
    pub monthdays: Option<Vec<u8>>,
    pub is_enabled: bool,
    pub repeat_on_close: bool,
    /// Minutes after which a dismissed reminder comes back.
    pub repeat_interval: Option<i32>,
    pub is_loop: bool,
    /// Minutes between two firings of a looping reminder.
    pub loop_interval: Option<i32>,
    pub notify_on_trigger: bool,
    pub notify_on_complete: bool,
    pub notify_on_timeout: bool,
    /// Minutes after which an unanswered firing counts as timed out.
    pub timeout_minutes: Option<i32>,
    pub last_triggered_at: Option<Timestamp>,
    pub last_completed_at: Option<Timestamp>,
    pub sort_order: i32,
    pub created_at: Timestamp,
    pub updated_at: Timestamp,
    pub deleted_at: Option<Timestamp>,
    pub version: i32,
    pub sync_status: SyncStatus,
    pub sync_at: Option<Timestamp>,
}

/// What is needed to create a reminder.
#[derive(Debug)]
pub struct CreateReminderRequest {
    pub title: String,
    pub content: Option<String>,
    pub links: Option<Vec<ReminderLink>>,
    pub remind_time: String,
    pub remind_type: Option<RemindType>,
    pub weekdays: Option<Vec<u8>>,
    pub monthdays: Option<Vec<u8>>,
    pub repeat_on_close: Option<bool>,
    pub repeat_interval: Option<i32>,
    pub is_loop: Option<bool>,
    pub loop_interval: Option<i32>,
    pub notify_on_trigger: Option<bool>,
    pub notify_on_complete: Option<bool>,
    pub notify_on_timeout: Option<bool>,
    pub timeout_minutes: Option<i32>,
}

/// The fields of a reminder to change; an absent field stays as it is.
#[derive(Debug)]
pub struct UpdateReminderRequest {
    pub uuid: String,
    pub title: Option<String>,
    pub content: Option<String>,
    pub links: Option<Vec<ReminderLink>>,
    pub remind_time: Option<String>,
    pub remind_type: Option<RemindType>,
    pub weekdays: Option<Vec<u8>>,
    pub monthdays: Option<Vec<u8>>,
    pub is_enabled: Option<bool>,
    pub repeat_on_close: Option<bool>,
    pub repeat_interval: Option<i32>,
    pub is_loop: Option<bool>,
    pub loop_interval: Option<i32>,
    pub notify_on_trigger: Option<bool>,
    pub notify_on_complete: Option<bool>,
    pub notify_on_timeout: Option<bool>,
    pub timeout_minutes: Option<i32>,
    pub sort_order: Option<i32>,
}

} // verus!
