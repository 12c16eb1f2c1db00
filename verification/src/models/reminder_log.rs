//! The log of what happened to a reminder.

use crate::models::reminder::SyncStatus;
use crate::text::same_text;
use crate::time::Timestamp;
use vstd::prelude::*;
use vstd::string::*;

verus! {

/// What a log entry records.
#[derive(Debug, Clone, Copy, PartialEq, Eq, Structural)]
pub enum LogAction {
    Triggered,
    Completed,
    Dismissed,
    Snoozed,
}

impl LogAction {
    /// The name under which the action is stored.
    pub open spec fn name(self) -> Seq<char> {
        match self {
            LogAction::Triggered => "triggered"@,
            LogAction::Completed => "completed"@,
            LogAction::Dismissed => "dismissed"@,
            LogAction::Snoozed => "snoozed"@,
        }
    }

    /// The action that a stored name stands for; any unknown name stands for
    /// `Triggered`.
    pub open spec fn parse(s: Seq<char>) -> LogAction {
        if s == "completed"@ {
            LogAction::Completed
        } else if s == "dismissed"@ {
            LogAction::Dismissed
        } else if s == "snoozed"@ {
            LogAction::Snoozed
        } else {
            LogAction::Triggered
        }
    }

    pub fn as_str(&self) -> (s: &'static str)
        ensures
            s@ == self.name(),
    {
        match self {
            LogAction::Triggered => "triggered",
            LogAction::Completed => "completed",
            LogAction::Dismissed => "dismissed",
            LogAction::Snoozed => "snoozed",
        }
    }

    pub fn from_str(s: &str) -> (r: Self)
        ensures
            r == Self::parse(s@),
    {
        if same_text(s, "completed") {
            LogAction::Completed
        } else if same_text(s, "dismissed") {
            LogAction::Dismissed
        } else if same_text(s, "snoozed") {
            LogAction::Snoozed
        } else {
            LogAction::Triggered
        }
    }

    /// Every action is read back from its own name.
    pub proof fn lemma_name_round_trip(self)
        ensures
            Self::parse(self.name()) == self,
    {
        reveal_strlit("triggered");
        reveal_strlit("completed");
        reveal_strlit("dismissed");
        reveal_strlit("snoozed");
        assert("triggered"@.len() == 9 && "snoozed"@.len() == 7);
        assert("triggered"@[0] == 't' && "completed"@[0] == 'c' && "dismissed"@[0] == 'd');
    }
}

/// One entry of the log: an event on a reminder, never changed once written.
#[derive(Debug, Clone)]
pub struct ReminderLog {
    pub id: Option<i64>,
    pub uuid: String,
    pub reminder_uuid: String,
    pub action: LogAction,
    pub triggered_at: Timestamp,
    pub action_at: Option<Timestamp>,
    pub snooze_until: Option<Timestamp>,
    pub note: Option<String>,
    pub created_at: Timestamp,
    pub sync_status: SyncStatus,
    pub sync_at: Option<Timestamp>,
}

} // verus!
