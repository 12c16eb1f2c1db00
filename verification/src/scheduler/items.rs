//! The entries of the snooze, loop and timeout queues, and the three queues
//! together.

use crate::queue::{Wake, WakeQueue};
use crate::time::Timestamp;
use vstd::prelude::*;

verus! {

/// A snoozed reminder: it fires again at `snooze_until`.
#[derive(Debug, Clone, PartialEq, Eq)]
pub struct SnoozeItem {
    pub reminder_uuid: String,
    pub snooze_until: Timestamp,
    pub original_triggered_at: Timestamp,
}

/// A snooze entry with its id as a sequence of characters.
pub struct SnoozeItemView {
    pub reminder_uuid: Seq<char>,
    pub snooze_until: Timestamp,
    pub original_triggered_at: Timestamp,
}

impl View for SnoozeItem {
    type V = SnoozeItemView;

    open spec fn view(&self) -> SnoozeItemView {
        SnoozeItemView {
            reminder_uuid: self.reminder_uuid@,
            snooze_until: self.snooze_until,
            original_triggered_at: self.original_triggered_at,
        }
    }
}

impl Wake for SnoozeItem {
    open spec fn id_of(v: SnoozeItemView) -> Seq<char> {
        v.reminder_uuid
    }

    open spec fn due_at(v: SnoozeItemView, now: Timestamp) -> bool {
        v.snooze_until.at_or_before(now)
    }

    fn id(&self) -> (s: &String) {
        &self.reminder_uuid
    }

    fn is_due(&self, now: &Timestamp) -> (b: bool) {
        self.snooze_until.is_at_or_before(now)
    }
}

/// A looping reminder: it fires again at `next_loop_at`.
#[derive(Debug, Clone, PartialEq, Eq)]
pub struct LoopItem {
    pub reminder_uuid: String,
    pub next_loop_at: Timestamp,
    pub original_triggered_at: Timestamp,
}

/// A loop entry with its id as a sequence of characters.
pub struct LoopItemView {
    pub reminder_uuid: Seq<char>,
    pub next_loop_at: Timestamp,
    pub original_triggered_at: Timestamp,
}

impl View for LoopItem {
    type V = LoopItemView;

    open spec fn view(&self) -> LoopItemView {
        LoopItemView {
            reminder_uuid: self.reminder_uuid@,
            next_loop_at: self.next_loop_at,
            original_triggered_at: self.original_triggered_at,
        }
    }
}

impl Wake for LoopItem {
    open spec fn id_of(v: LoopItemView) -> Seq<char> {
        v.reminder_uuid
    }

    open spec fn due_at(v: LoopItemView, now: Timestamp) -> bool {
        v.next_loop_at.at_or_before(now)
    }

    fn id(&self) -> (s: &String) {
        &self.reminder_uuid
    }

    fn is_due(&self, now: &Timestamp) -> (b: bool) {
        self.next_loop_at.is_at_or_before(now)
    }
}

/// A fired reminder under watch: it times out `timeout_minutes` minutes
/// after `triggered_at`.
#[derive(Debug, Clone, PartialEq, Eq)]
pub struct TimeoutWatch {
    pub reminder_uuid: String,
    pub triggered_at: Timestamp,
    pub timeout_minutes: i32,
}

/// A timeout entry with its id as a sequence of characters.
pub struct TimeoutWatchView {
    pub reminder_uuid: Seq<char>,
    pub triggered_at: Timestamp,
    pub timeout_minutes: i32,
}

impl View for TimeoutWatch {
    type V = TimeoutWatchView;

    open spec fn view(&self) -> TimeoutWatchView {
        TimeoutWatchView {
            reminder_uuid: self.reminder_uuid@,
            triggered_at: self.triggered_at,
            timeout_minutes: self.timeout_minutes,
        }
    }
}

impl Wake for TimeoutWatch {
    open spec fn id_of(v: TimeoutWatchView) -> Seq<char> {
        v.reminder_uuid
    }

    open spec fn due_at(v: TimeoutWatchView, now: Timestamp) -> bool {
        v.triggered_at.elapsed(v.timeout_minutes as int, now)
    }

    fn id(&self) -> (s: &String) {
        &self.reminder_uuid
    }

    fn is_due(&self, now: &Timestamp) -> (b: bool) {
        self.triggered_at.has_elapsed(self.timeout_minutes, now)
    }
}

/// The three wake queues of the engine.
pub struct WakeQueues {
    pub snooze: WakeQueue<SnoozeItem>,
    pub loops: WakeQueue<LoopItem>,
    pub timeouts: WakeQueue<TimeoutWatch>,
}

/// The three wake queues as maps from reminder id to pending entry.
pub struct WakeQueuesView {
    pub snooze: Map<Seq<char>, SnoozeItemView>,
    pub loops: Map<Seq<char>, LoopItemView>,
    pub timeouts: Map<Seq<char>, TimeoutWatchView>,
}

impl View for WakeQueues {
    type V = WakeQueuesView;

    open spec fn view(&self) -> WakeQueuesView {
        WakeQueuesView { snooze: self.snooze@, loops: self.loops@, timeouts: self.timeouts@ }
    }
}

impl WakeQueuesView {
    /// Nothing is pending.
    pub open spec fn empty() -> WakeQueuesView {
        WakeQueuesView { snooze: Map::empty(), loops: Map::empty(), timeouts: Map::empty() }
    }

    /// No entry of any kind is pending for reminder `id`.
    pub open spec fn is_clear_of(self, id: Seq<char>) -> bool {
        &&& !self.snooze.dom().contains(id)
        &&& !self.loops.dom().contains(id)
        &&& !self.timeouts.dom().contains(id)
    }
}

impl WakeQueues {
    /// Each queue holds at most one entry for each reminder id.
    pub open spec fn wf(&self) -> bool {
        self.snooze.wf() && self.loops.wf() && self.timeouts.wf()
    }

    pub fn new() -> (q: Self)
        ensures
            q.wf(),
            q@ == WakeQueuesView::empty(),
    {
        WakeQueues { snooze: WakeQueue::new(), loops: WakeQueue::new(), timeouts: WakeQueue::new() }
    }
}

} // verus!
