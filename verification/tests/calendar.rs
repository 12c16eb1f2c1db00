use chrono::{Datelike, Timelike};
use reminder_scheduler::time::{
    get_last_day_of_month, local_date, local_moment, moment_of, CalendarDate, LocalMoment,
    Timestamp, MAX_SECS, MIN_SECS,
};

#[test]
fn last_day_of_each_month_of_a_common_year() {
    let expected = [31u8, 28, 31, 30, 31, 30, 31, 31, 30, 31, 30, 31];
    for month in 1..=12u32 {
        assert_eq!(get_last_day_of_month(2023, month), expected[(month - 1) as usize]);
    }
}

#[test]
fn february_follows_the_leap_year_rule() {
    assert_eq!(get_last_day_of_month(2024, 2), 29);
    assert_eq!(get_last_day_of_month(2023, 2), 28);
    assert_eq!(get_last_day_of_month(1900, 2), 28);
    assert_eq!(get_last_day_of_month(2000, 2), 29);
}

#[test]
fn last_day_falls_back_to_28_outside_the_calendar() {
    assert_eq!(get_last_day_of_month(2024, 0), 28);
    assert_eq!(get_last_day_of_month(2024, 13), 28);
    assert_eq!(get_last_day_of_month(2024, u32::MAX), 28);
    assert_eq!(get_last_day_of_month(i32::MAX, 12), 28);
    assert_eq!(get_last_day_of_month(i32::MIN, 1), 28);
    assert_eq!(get_last_day_of_month(262143, 1), 28);
    assert_eq!(get_last_day_of_month(-262144, 12), 28);
}

#[test]
fn the_first_and_the_last_year_of_the_calendar_have_their_months() {
    let common = [31u8, 28, 31, 30, 31, 30, 31, 31, 30, 31, 30, 31];
    for month in 1..=12u32 {
        // Neither 262142 nor -262143 is a leap year.
        assert_eq!(get_last_day_of_month(262142, month), common[(month - 1) as usize]);
        assert_eq!(get_last_day_of_month(-262143, month), common[(month - 1) as usize]);
    }
    assert_eq!(get_last_day_of_month(262142, 12), 31);
    assert!(LocalMoment::new(262142, 12, 31, 9, 0, 0, 1).is_some());
    assert_eq!(get_last_day_of_month(262140, 2), 29);
}

#[test]
fn the_last_day_of_a_month_is_the_day_before_the_next_month_in_chrono() {
    for year in [-262143, -1, 0, 1600, 1900, 2000, 2023, 2024, 2100, 262141] {
        for month in 1..=12u32 {
            let (y, m) = if month == 12 { (year + 1, 1) } else { (year, month + 1) };
            let last = chrono::NaiveDate::from_ymd_opt(y, m, 1).unwrap().pred_opt().unwrap().day();
            assert_eq!(get_last_day_of_month(year, month) as u32, last);
        }
    }
}

#[test]
fn representable_seconds_are_those_of_chrono() {
    assert_eq!(chrono::DateTime::<chrono::Utc>::MIN_UTC.timestamp(), MIN_SECS);
    assert_eq!(chrono::DateTime::<chrono::Utc>::MAX_UTC.timestamp(), MAX_SECS);
    assert!(Timestamp::new(MIN_SECS, 0).is_some());
    assert!(Timestamp::new(MIN_SECS - 1, 0).is_none());
    assert!(Timestamp::new(MAX_SECS, 0).is_some());
    assert!(Timestamp::new(MAX_SECS + 1, 0).is_none());
}

#[test]
fn moments_on_days_that_do_not_exist_are_refused() {
    assert!(LocalMoment::new(2024, 4, 30, 9, 0, 0, 2).is_some());
    assert!(LocalMoment::new(2024, 4, 31, 9, 0, 0, 2).is_none());
    assert!(LocalMoment::new(2023, 2, 29, 9, 0, 0, 3).is_none());
    assert!(LocalMoment::new(2024, 2, 29, 9, 0, 0, 4).is_some());
    assert!(LocalMoment::new(2024, 1, 1, 24, 0, 0, 1).is_none());
    assert!(LocalMoment::new(2024, 1, 1, 0, 60, 0, 1).is_none());
    assert!(LocalMoment::new(2024, 1, 1, 0, 0, 0, 0).is_none());
    assert!(LocalMoment::new(2024, 1, 1, 0, 0, 0, 8).is_none());
}

#[test]
fn instants_are_ordered_by_seconds_then_nanoseconds() {
    let a = Timestamp { secs: 100, nanos: 5 };
    let b = Timestamp { secs: 100, nanos: 6 };
    let c = Timestamp { secs: 101, nanos: 0 };
    assert!(a.is_at_or_before(&a));
    assert!(a.is_at_or_before(&b));
    assert!(!b.is_at_or_before(&a));
    assert!(b.is_at_or_before(&c));
    assert!(!c.is_at_or_before(&b));
}

#[test]
fn adding_minutes_moves_the_seconds_only() {
    let start = Timestamp { secs: 1_714_467_600, nanos: 123 };
    assert_eq!(start.add_minutes(5), Timestamp { secs: 1_714_467_900, nanos: 123 });
    assert_eq!(start.add_minutes(0), start);
    assert_eq!(start.add_minutes(-1), Timestamp { secs: 1_714_467_540, nanos: 123 });
    assert_eq!(
        start.add_minutes(i32::MAX),
        Timestamp { secs: 1_714_467_600 + 60 * (i32::MAX as i64), nanos: 123 }
    );
}

#[test]
fn adding_minutes_agrees_with_chrono() {
    let start = chrono::DateTime::from_timestamp(1_714_467_600, 123).unwrap();
    let later = start + chrono::Duration::minutes(10);
    let mine = Timestamp { secs: start.timestamp(), nanos: start.timestamp_subsec_nanos() }
        .add_minutes(10);
    assert_eq!(mine.secs, later.timestamp());
    assert_eq!(mine.nanos, later.timestamp_subsec_nanos());
}

#[test]
fn minutes_have_elapsed_from_the_deadline_on() {
    let start = Timestamp { secs: 1_000, nanos: 500 };
    assert!(!start.has_elapsed(10, &Timestamp { secs: 1_599, nanos: 999_999_999 }));
    assert!(!start.has_elapsed(10, &Timestamp { secs: 1_600, nanos: 499 }));
    assert!(start.has_elapsed(10, &Timestamp { secs: 1_600, nanos: 500 }));
    assert!(start.has_elapsed(10, &Timestamp { secs: 1_601, nanos: 0 }));
    assert!(start.has_elapsed(0, &start));
    let far = Timestamp { secs: i64::MAX, nanos: 0 };
    assert!(!far.has_elapsed(i32::MAX, &far));
    assert!(far.has_elapsed(i32::MIN, &far));
}

#[test]
fn a_moment_shows_its_time_of_day_with_two_digits_each() {
    let nine = LocalMoment::new(2024, 4, 30, 9, 0, 0, 2).unwrap();
    assert_eq!(nine.clock_string(), "09:00");
    assert!(nine.shows("09:00"));
    assert!(!nine.shows("9:00"));
    assert!(!nine.shows("09:01"));
    assert!(!nine.shows("09:00 "));
    assert!(!nine.shows(""));
    let late = LocalMoment::new(2024, 4, 30, 23, 59, 59, 2).unwrap();
    assert_eq!(late.clock_string(), "23:59");
    assert!(late.shows("23:59"));
    assert!(!late.shows("23:5９"));
}

#[test]
fn the_time_of_day_is_what_chrono_formats() {
    for hour in 0..24u32 {
        for minute in [0u32, 1, 9, 10, 30, 59] {
            let moment = LocalMoment::new(2024, 1, 1, hour, minute, 0, 1).unwrap();
            let formatted = chrono::NaiveTime::from_hms_opt(hour, minute, 0)
                .unwrap()
                .format("%H:%M")
                .to_string();
            assert_eq!(moment.clock_string(), formatted);
            assert!(moment.shows(&formatted));
        }
    }
}

#[test]
fn the_local_moment_of_an_instant_is_what_chrono_gives() {
    let at = Timestamp { secs: 1_714_467_600, nanos: 0 };
    let moment = reminder_scheduler::time::local_moment(&at).unwrap();
    let local = chrono::DateTime::from_timestamp(at.secs, at.nanos)
        .unwrap()
        .with_timezone(&chrono::Local);
    assert_eq!(moment.year, local.year());
    assert_eq!(moment.month, local.month());
    assert_eq!(moment.day, local.day());
    assert_eq!(moment.hour, local.hour());
    assert_eq!(moment.minute, local.minute());
    assert_eq!(moment.second, local.second());
    assert_eq!(moment.weekday as u32, local.weekday().num_days_from_monday() + 1);
    assert_eq!(
        reminder_scheduler::time::local_date(&at).unwrap(),
        moment.calendar_date()
    );
}

#[test]
fn an_instant_outside_the_calendar_has_no_local_moment() {
    let far = Timestamp { secs: i64::MAX, nanos: 0 };
    assert!(reminder_scheduler::time::local_moment(&far).is_none());
    assert!(reminder_scheduler::time::local_date(&far).is_none());
}

#[test]
fn days_are_numbered_from_the_first_day_of_1970() {
    assert_eq!(CalendarDate { year: 1970, month: 1, day: 1 }.day_number(), 0);
    assert_eq!(CalendarDate { year: 1970, month: 1, day: 2 }.day_number(), 1);
    assert_eq!(CalendarDate { year: 1969, month: 12, day: 31 }.day_number(), -1);
    assert_eq!(CalendarDate { year: 2024, month: 4, day: 30 }.day_number(), 19_843);
    assert_eq!(CalendarDate { year: 2000, month: 3, day: 1 }.day_number(), 11_017);
    assert_eq!(CalendarDate { year: -262143, month: 1, day: 1 }.day_number(), MIN_SECS / 86_400);
    assert_eq!(CalendarDate { year: 262142, month: 12, day: 31 }.day_number(), MAX_SECS / 86_400);
}

#[test]
fn the_number_of_a_day_is_that_of_chrono() {
    let epoch = chrono::NaiveDate::from_ymd_opt(1970, 1, 1).unwrap();
    for year in [-262143, -4001, -400, -101, -100, -5, -4, -1, 0, 1, 4, 100, 400, 1582, 1900, 1969,
        1970, 1999, 2000, 2023, 2024, 2100, 262142]
    {
        for month in 1..=12u32 {
            for day in [1u32, 15, get_last_day_of_month(year, month) as u32] {
                let date = chrono::NaiveDate::from_ymd_opt(year, month, day).unwrap();
                assert_eq!(
                    CalendarDate { year, month, day }.day_number(),
                    date.signed_duration_since(epoch).num_days()
                );
            }
        }
    }
}

#[test]
fn the_local_date_of_an_instant_is_within_a_day_of_its_date_of_utc() {
    for secs in [-1_000_000_000_000i64, -86_401, -86_400, -1, 0, 1, 86_399, 86_400, 951_782_400,
        1_714_467_600, 4_102_444_800, 1_000_000_000_000]
    {
        let at = Timestamp { secs, nanos: 0 };
        let date = local_date(&at).unwrap();
        let utc_day = secs.div_euclid(86_400);
        assert!((date.day_number() - utc_day).abs() <= 1);
        assert_eq!(local_moment(&at).unwrap().calendar_date(), date);
    }
}

#[test]
fn every_ordinary_instant_has_a_local_moment() {
    for secs in [MIN_SECS + 86_400, -62_135_596_800, 0, 1_714_467_600, MAX_SECS - 86_400] {
        for nanos in [0, 999_999_999] {
            let at = Timestamp { secs, nanos };
            let moment = local_moment(&at).unwrap();
            assert!((moment.calendar_date().day_number() - secs.div_euclid(86_400)).abs() <= 1);
            assert_eq!(local_date(&at), Some(moment.calendar_date()));
        }
    }
}

#[test]
fn an_instant_outside_the_range_has_no_local_moment() {
    for at in [
        Timestamp { secs: MIN_SECS - 1, nanos: 0 },
        Timestamp { secs: MAX_SECS + 1, nanos: 0 },
        Timestamp { secs: i64::MIN, nanos: 0 },
        Timestamp { secs: i64::MAX, nanos: 0 },
    ] {
        assert!(local_moment(&at).is_none());
        assert!(local_date(&at).is_none());
    }
    assert!(local_date(&Timestamp { secs: 0, nanos: 2_000_000_000 }).is_none());
    for secs in [MIN_SECS, MAX_SECS] {
        if let Some(date) = local_date(&Timestamp { secs, nanos: 0 }) {
            assert!((date.day_number() - secs.div_euclid(86_400)).abs() <= 1);
        }
    }
}

#[test]
fn fields_are_a_moment_where_they_are_valid_and_near_the_instant() {
    // 2024-04-30 09:00:00 UTC is day 19843.
    let at = Timestamp { secs: 1_714_467_600, nanos: 0 };
    let fields = |month, day, hour| LocalMoment {
        year: 2024,
        month,
        day,
        hour,
        minute: 0,
        second: 0,
        weekday: 2,
    };
    for (month, day) in [(4, 29), (4, 30), (5, 1)] {
        let f = fields(month, day, 9);
        assert_eq!(moment_of(Some(f), &at), Some(f));
    }
    assert_eq!(moment_of(Some(fields(4, 28, 9)), &at), None);
    assert_eq!(moment_of(Some(fields(5, 2, 9)), &at), None);
    assert_eq!(moment_of(Some(fields(4, 31, 9)), &at), None);
    assert_eq!(moment_of(Some(fields(13, 1, 9)), &at), None);
    assert_eq!(moment_of(Some(fields(4, 30, 24)), &at), None);
    let mut no_weekday = fields(4, 30, 9);
    no_weekday.weekday = 0;
    assert_eq!(moment_of(Some(no_weekday), &at), None);
    assert_eq!(moment_of(None, &at), None);
}
