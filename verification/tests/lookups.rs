use reminder_scheduler::clock::{
    checked_clock, current_time_str, minutes_from, minutes_until, parse_time, ClockTime,
    MINUTES_PER_DAY,
};
use reminder_scheduler::models::reminder::{RemindType, Reminder, SyncStatus};
use reminder_scheduler::models::settings::AppSettings;
use reminder_scheduler::notification::{send_serverchan_notification, send_url, Dispatch};
use reminder_scheduler::services::{get_next_reminder, next_reminder_position};
use reminder_scheduler::text::same_text;
use reminder_scheduler::time::{LocalMoment, Timestamp};

fn at_time(uuid: &str, time: &str) -> Reminder {
    Reminder {
        id: None,
        uuid: uuid.to_string(),
        user_id: None,
        title: String::new(),
        content: String::new(),
        links: None,
        remind_time: time.to_string(),
        remind_type: RemindType::Daily,
        weekdays: None,
        monthdays: None,
        is_enabled: true,
        repeat_on_close: false,
        repeat_interval: None,
        is_loop: false,
        loop_interval: None,
        notify_on_trigger: false,
        notify_on_complete: false,
        notify_on_timeout: false,
        timeout_minutes: None,
        last_triggered_at: None,
        last_completed_at: None,
        sort_order: 0,
        created_at: Timestamp { secs: 0, nanos: 0 },
        updated_at: Timestamp { secs: 0, nanos: 0 },
        deleted_at: None,
        version: 1,
        sync_status: SyncStatus::Pending,
        sync_at: None,
    }
}

#[test]
fn same_text_compares_characters() {
    assert!(same_text("", ""));
    assert!(same_text("提醒", "提醒"));
    assert!(!same_text("a", "A"));
    assert!(!same_text("a", "ab"));
}

#[test]
fn the_default_host_is_used_without_a_domain() {
    assert_eq!(send_url(None, "KEY"), "https://sctapi.ftqq.com/KEY.send");
    assert_eq!(send_url(Some(""), "KEY"), "https://sctapi.ftqq.com/KEY.send");
}

#[test]
fn the_scheme_of_a_domain_is_dropped() {
    assert_eq!(send_url(Some("example.org"), "KEY"), "https://example.org/KEY.send");
    assert_eq!(send_url(Some("https://example.org"), "KEY"), "https://example.org/KEY.send");
    assert_eq!(send_url(Some("http://example.org"), "KEY"), "https://example.org/KEY.send");
    assert_eq!(
        send_url(Some("https://https://http://http://example.org"), "KEY"),
        "https://example.org/KEY.send"
    );
    assert_eq!(
        send_url(Some("http://https://example.org"), "KEY"),
        "https://https://example.org/KEY.send"
    );
}

#[test]
fn the_push_host_has_its_own_path() {
    assert_eq!(send_url(Some("push.ft07.com"), "KEY"), "https://push.ft07.com/send/KEY.send");
    assert_eq!(
        send_url(Some("https://1234.push.ft07.com"), "sctp1234t"),
        "https://1234.push.ft07.com/send/sctp1234t.send"
    );
    assert_eq!(send_url(Some("push.ft07.co"), "KEY"), "https://push.ft07.co/KEY.send");
}

#[test]
fn nothing_is_sent_without_a_key() {
    assert_eq!(send_serverchan_notification(None, "t", "c"), None);
    let mut settings = AppSettings::default();
    assert_eq!(send_serverchan_notification(Some(&settings), "t", "c"), None);
    settings.serverchan_sendkey = Some(String::new());
    assert_eq!(send_serverchan_notification(Some(&settings), "t", "c"), None);
    settings.serverchan_domain = Some("example.org".to_string());
    assert_eq!(send_serverchan_notification(Some(&settings), "t", "c"), None);
}

#[test]
fn a_notification_goes_to_the_configured_address() {
    let mut settings = AppSettings::default();
    settings.serverchan_sendkey = Some("KEY".to_string());
    assert_eq!(
        send_serverchan_notification(Some(&settings), "title", "text"),
        Some(Dispatch {
            url: "https://sctapi.ftqq.com/KEY.send".to_string(),
            title: "title".to_string(),
            desp: "text".to_string(),
        })
    );
    settings.serverchan_domain = Some("https://9.push.ft07.com".to_string());
    assert_eq!(
        send_serverchan_notification(Some(&settings), "title", "text").unwrap().url,
        "https://9.push.ft07.com/send/KEY.send"
    );
}

#[test]
fn the_next_reminder_is_the_earliest_still_to_come() {
    let list = vec![at_time("a", "08:00"), at_time("b", "12:30"), at_time("c", "10:15"), at_time("d", "23:00")];
    assert_eq!(next_reminder_position(&list, "09:00"), Some(2));
    assert_eq!(get_next_reminder(&list, "09:00").unwrap().uuid, "c");
    assert_eq!(next_reminder_position(&list, "10:15"), Some(1));
    assert_eq!(next_reminder_position(&list, "00:00"), Some(0));
    assert_eq!(next_reminder_position(&list, "22:59"), Some(3));
}

#[test]
fn the_first_of_equal_times_is_the_next_reminder() {
    let list = vec![at_time("a", "12:00"), at_time("b", "10:00"), at_time("c", "10:00")];
    assert_eq!(next_reminder_position(&list, "09:00"), Some(1));
    assert_eq!(get_next_reminder(&list, "09:00").unwrap().uuid, "b");
}

#[test]
fn the_first_of_the_list_is_shown_when_the_day_has_none_left() {
    let list = vec![at_time("a", "08:00"), at_time("b", "07:00")];
    assert_eq!(next_reminder_position(&list, "08:00"), Some(0));
    assert_eq!(get_next_reminder(&list, "23:59").unwrap().uuid, "a");
}

#[test]
fn an_empty_list_has_no_next_reminder() {
    let list: Vec<Reminder> = Vec::new();
    assert_eq!(next_reminder_position(&list, "09:00"), None);
    assert!(get_next_reminder(&list, "09:00").is_none());
}

#[test]
fn times_are_ordered_as_strings() {
    // "9:00" sorts after "10:00": the order is that of the characters.
    let list = vec![at_time("a", "10:00"), at_time("b", "9:00")];
    assert_eq!(next_reminder_position(&list, "09:30"), Some(0));
    assert_eq!(next_reminder_position(&list, "10:00"), Some(1));
    // A proper prefix comes first.
    let list = vec![at_time("a", "10:00x"), at_time("b", "10:00")];
    assert_eq!(next_reminder_position(&list, "10:0"), Some(1));
}

#[test]
fn a_time_of_day_is_read_from_hour_and_minute() {
    assert_eq!(parse_time("09:00"), Some(ClockTime { hour: 9, minute: 0 }));
    assert_eq!(parse_time("23:59"), Some(ClockTime { hour: 23, minute: 59 }));
    assert_eq!(parse_time("7:15"), Some(ClockTime { hour: 7, minute: 15 }));
    assert_eq!(parse_time("24:00"), None);
    assert_eq!(parse_time("17:60"), None);
    assert_eq!(parse_time("noon"), None);
    assert_eq!(parse_time(""), None);
    assert_eq!(parse_time("09:00:00"), None);
}

#[test]
fn a_parse_outside_the_day_is_no_time_of_day() {
    assert_eq!(checked_clock(Some((9, 30))), Some(ClockTime { hour: 9, minute: 30 }));
    assert_eq!(checked_clock(Some((24, 0))), None);
    assert_eq!(checked_clock(Some((0, 60))), None);
    assert_eq!(checked_clock(None), None);
}

#[test]
fn minutes_until_a_time_later_today() {
    let now = LocalMoment::new(2024, 4, 30, 9, 0, 30, 2).unwrap();
    assert_eq!(minutes_from(&ClockTime { hour: 9, minute: 1 }, &now), 1);
    assert_eq!(minutes_from(&ClockTime { hour: 17, minute: 45 }, &now), 525);
    assert_eq!(minutes_until("17:45", &now), Some(525));
}

#[test]
fn minutes_until_a_time_that_has_passed_count_to_tomorrow() {
    let now = LocalMoment::new(2024, 4, 30, 9, 0, 0, 2).unwrap();
    assert_eq!(MINUTES_PER_DAY, 1440);
    assert_eq!(minutes_from(&ClockTime { hour: 9, minute: 0 }, &now), 1440);
    assert_eq!(minutes_from(&ClockTime { hour: 8, minute: 59 }, &now), 1439);
    assert_eq!(minutes_from(&ClockTime { hour: 0, minute: 0 }, &now), 900);
    assert_eq!(minutes_until("08:59", &now), Some(1439));
    assert_eq!(minutes_until("late", &now), None);
}

#[test]
fn the_time_of_day_of_a_moment_is_written_with_two_digits_each() {
    let now = LocalMoment::new(2024, 4, 30, 7, 5, 59, 2).unwrap();
    assert_eq!(current_time_str(&now), "07:05");
    let late = LocalMoment::new(2024, 4, 30, 23, 59, 0, 2).unwrap();
    assert_eq!(current_time_str(&late), "23:59");
    assert_eq!(minutes_until("25:00", &now), None);
    assert_eq!(minutes_until("07:05", &now), Some(1440));
    assert_eq!(minutes_until("07:06", &now), Some(1));
}
