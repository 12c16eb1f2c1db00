use reminder_scheduler::queue::WakeQueue;
use reminder_scheduler::scheduler::items::{LoopItem, SnoozeItem, TimeoutWatch};
use reminder_scheduler::time::Timestamp;

fn at(secs: i64) -> Timestamp {
    Timestamp { secs, nanos: 0 }
}

fn snooze(id: &str, until: i64) -> SnoozeItem {
    SnoozeItem { reminder_uuid: id.to_string(), snooze_until: at(until), original_triggered_at: at(0) }
}

#[test]
fn a_new_queue_is_empty() {
    let q: WakeQueue<SnoozeItem> = WakeQueue::new();
    assert!(q.is_empty());
    assert_eq!(q.len(), 0);
    assert!(!q.contains("a"));
    assert!(q.get("a").is_none());
}

#[test]
fn upsert_files_an_entry_under_its_id() {
    let mut q = WakeQueue::new();
    q.upsert(snooze("a", 100));
    q.upsert(snooze("b", 200));
    assert_eq!(q.len(), 2);
    assert!(!q.is_empty());
    assert!(q.contains("a"));
    assert!(q.contains("b"));
    assert!(!q.contains("c"));
    assert_eq!(q.get("a"), Some(&snooze("a", 100)));
    assert_eq!(q.get("b"), Some(&snooze("b", 200)));
}

#[test]
fn upsert_replaces_the_entry_of_the_same_id() {
    let mut q = WakeQueue::new();
    q.upsert(snooze("a", 100));
    q.upsert(snooze("b", 200));
    q.upsert(snooze("a", 300));
    assert_eq!(q.len(), 2);
    assert_eq!(q.get("a"), Some(&snooze("a", 300)));
    assert_eq!(q.get("b"), Some(&snooze("b", 200)));
}

#[test]
fn remove_is_idempotent() {
    let mut q = WakeQueue::new();
    q.upsert(snooze("a", 100));
    q.upsert(snooze("b", 200));
    q.remove("a");
    assert_eq!(q.len(), 1);
    assert!(!q.contains("a"));
    assert!(q.contains("b"));
    q.remove("a");
    q.remove("never there");
    assert_eq!(q.len(), 1);
    assert_eq!(q.get("b"), Some(&snooze("b", 200)));
}

#[test]
fn drain_returns_what_is_due_and_keeps_the_rest() {
    let mut q = WakeQueue::new();
    q.upsert(snooze("a", 100));
    q.upsert(snooze("b", 200));
    q.upsert(snooze("c", 150));
    q.upsert(snooze("d", 151));
    let mut woken = q.drain_expired(&at(150));
    woken.sort_by(|x, y| x.reminder_uuid.cmp(&y.reminder_uuid));
    assert_eq!(woken, vec![snooze("a", 100), snooze("c", 150)]);
    assert_eq!(q.len(), 2);
    assert_eq!(q.get("b"), Some(&snooze("b", 200)));
    assert_eq!(q.get("d"), Some(&snooze("d", 151)));
}

#[test]
fn a_second_drain_at_the_same_instant_returns_nothing() {
    let mut q = WakeQueue::new();
    q.upsert(snooze("a", 100));
    q.upsert(snooze("b", 200));
    assert_eq!(q.drain_expired(&at(100)).len(), 1);
    assert!(q.drain_expired(&at(100)).is_empty());
    assert_eq!(q.len(), 1);
}

#[test]
fn drain_returns_each_id_once_even_after_replacement() {
    let mut q = WakeQueue::new();
    q.upsert(snooze("a", 100));
    q.upsert(snooze("a", 90));
    q.upsert(snooze("a", 95));
    let woken = q.drain_expired(&at(100));
    assert_eq!(woken, vec![snooze("a", 95)]);
    assert!(q.is_empty());
}

#[test]
fn drain_of_many_entries_takes_all_that_are_due() {
    let mut q = WakeQueue::new();
    for i in 0..50i64 {
        q.upsert(snooze(&format!("r{}", i), i));
    }
    let woken = q.drain_expired(&at(24));
    assert_eq!(woken.len(), 25);
    assert_eq!(q.len(), 25);
    for item in &woken {
        assert!(item.snooze_until.secs <= 24);
        assert!(!q.contains(&item.reminder_uuid));
    }
    for i in 25..50i64 {
        assert!(q.contains(&format!("r{}", i)));
    }
}

#[test]
fn nothing_is_drained_before_its_time() {
    let mut q = WakeQueue::new();
    q.upsert(snooze("a", 100));
    assert!(q.drain_expired(&at(99)).is_empty());
    assert!(q.contains("a"));
    let mut sub = WakeQueue::new();
    sub.upsert(SnoozeItem {
        reminder_uuid: "n".to_string(),
        snooze_until: Timestamp { secs: 100, nanos: 2 },
        original_triggered_at: at(0),
    });
    assert!(sub.drain_expired(&Timestamp { secs: 100, nanos: 1 }).is_empty());
    assert_eq!(sub.drain_expired(&Timestamp { secs: 100, nanos: 2 }).len(), 1);
}

#[test]
fn a_loop_entry_is_due_from_its_next_instant_on() {
    let mut q = WakeQueue::new();
    q.upsert(LoopItem {
        reminder_uuid: "a".to_string(),
        next_loop_at: at(500),
        original_triggered_at: at(200),
    });
    assert!(q.drain_expired(&at(499)).is_empty());
    let woken = q.drain_expired(&at(500));
    assert_eq!(woken.len(), 1);
    assert_eq!(woken[0].original_triggered_at, at(200));
}

#[test]
fn a_timeout_watch_is_due_when_its_minutes_have_elapsed() {
    let mut q = WakeQueue::new();
    q.upsert(TimeoutWatch { reminder_uuid: "a".to_string(), triggered_at: at(1_000), timeout_minutes: 10 });
    q.upsert(TimeoutWatch { reminder_uuid: "b".to_string(), triggered_at: at(1_000), timeout_minutes: 11 });
    assert!(q.drain_expired(&at(1_599)).is_empty());
    let timed_out = q.drain_expired(&at(1_600));
    assert_eq!(
        timed_out,
        vec![TimeoutWatch { reminder_uuid: "a".to_string(), triggered_at: at(1_000), timeout_minutes: 10 }]
    );
    assert!(q.contains("b"));
}
