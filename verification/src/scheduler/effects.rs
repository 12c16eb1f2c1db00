//! What the engine asks its host to do: the engine decides, the host
//! performs.

use crate::models::reminder_log::LogAction;
use crate::time::Timestamp;
use vstd::prelude::*;

verus! {

/// One thing for the host to do.
#[derive(Debug, Clone, PartialEq, Eq)]
pub enum Effect {
    /// Draw the user's attention to the reminder: flash the tray icon and
    /// show the reminder's popup, or bring the main window to the front
    /// where the popup cannot be shown.
    Alert { reminder_uuid: String },
    /// Persist `at` as the instant at which the reminder last fired.
    SetLastTriggered { reminder_uuid: String, at: Timestamp },
    /// Persist `at` as the instant at which the reminder was last completed.
    SetLastCompleted { reminder_uuid: String, at: Timestamp },
    /// Append an entry to the log.
    AppendLog {
        reminder_uuid: String,
        action: LogAction,
        triggered_at: Timestamp,
        action_at: Option<Timestamp>,
        snooze_until: Option<Timestamp>,
        note: Option<String>,
    },
    /// Send a notification; a failure to deliver it is of no consequence.
    Notify { title: String, body: String },
    /// Tell the presentation layer that the reminder timed out.
    EmitTimeout { reminder_uuid: String },
    /// Tell the presentation layer that the reminder was completed.
    EmitCompleted { reminder_uuid: String },
    /// Tell the presentation layer that the reminder was dismissed.
    EmitDismissed { reminder_uuid: String },
}

/// An effect with its texts as sequences of characters.
pub enum EffectView {
    Alert { reminder_uuid: Seq<char> },
    SetLastTriggered { reminder_uuid: Seq<char>, at: Timestamp },
    SetLastCompleted { reminder_uuid: Seq<char>, at: Timestamp },
    AppendLog {
        reminder_uuid: Seq<char>,
        action: LogAction,
        triggered_at: Timestamp,
        action_at: Option<Timestamp>,
        snooze_until: Option<Timestamp>,
        note: Option<Seq<char>>,
    },
    Notify { title: Seq<char>, body: Seq<char> },
    EmitTimeout { reminder_uuid: Seq<char> },
    EmitCompleted { reminder_uuid: Seq<char> },
    EmitDismissed { reminder_uuid: Seq<char> },
}

impl View for Effect {
    type V = EffectView;

    open spec fn view(&self) -> EffectView {
        match *self {
            Effect::Alert { reminder_uuid } => EffectView::Alert { reminder_uuid: reminder_uuid@ },
            Effect::SetLastTriggered { reminder_uuid, at } => EffectView::SetLastTriggered {
                reminder_uuid: reminder_uuid@,
                at,
            },
            Effect::SetLastCompleted { reminder_uuid, at } => EffectView::SetLastCompleted {
                reminder_uuid: reminder_uuid@,
                at,
            },
            Effect::AppendLog {
                reminder_uuid,
                action,
                triggered_at,
                action_at,
                snooze_until,
                note,
            } => EffectView::AppendLog {
                reminder_uuid: reminder_uuid@,
                action,
                triggered_at,
                action_at,
                snooze_until,
                note: match note {
                    Some(text) => Some(text@),
                    None => None,
                },
            },
            Effect::Notify { title, body } => EffectView::Notify { title: title@, body: body@ },
            Effect::EmitTimeout { reminder_uuid } => EffectView::EmitTimeout {
                reminder_uuid: reminder_uuid@,
            },
            Effect::EmitCompleted { reminder_uuid } => EffectView::EmitCompleted {
                reminder_uuid: reminder_uuid@,
            },
            Effect::EmitDismissed { reminder_uuid } => EffectView::EmitDismissed {
                reminder_uuid: reminder_uuid@,
            },
        }
    }
}

/// A list of effects, each by its view.
pub open spec fn views(effects: Seq<Effect>) -> Seq<EffectView> {
    effects.map_values(|e: Effect| e@)
}

} // verus!
