use chrono::TimeZone;
use server_warden::schedule::{check_hour, check_minute, resolve, LocalInstant, Schedule, ScheduleError};

const DAY: i32 = 737_546; // 2020-05-01

fn at(day: i32, hour: u32, minute: u32, second: u32, nanosecond: u32) -> LocalInstant {
    LocalInstant::new(day, hour, minute, second, nanosecond, 3600).unwrap()
}

#[test]
fn minute_out_of_range_is_rejected() {
    let now = at(DAY, 10, 0, 0, 0);
    assert_eq!(resolve(23, 70, now), Err(ScheduleError::MinuteOutOfRange));
    assert_eq!(resolve(0, 60, now), Err(ScheduleError::MinuteOutOfRange));
}

#[test]
fn hour_out_of_range_is_rejected_first() {
    let now = at(DAY, 10, 0, 0, 0);
    assert_eq!(resolve(24, 0, now), Err(ScheduleError::HourOutOfRange));
    assert_eq!(resolve(24, 70, now), Err(ScheduleError::HourOutOfRange));
}

#[test]
fn later_today_stays_today() {
    let now = at(DAY, 10, 0, 0, 0);
    let schedule = resolve(14, 30, now).unwrap();
    assert_eq!(schedule.at, at(DAY, 14, 30, 0, 0));
    assert_eq!(schedule.at.day, DAY);
    assert_eq!(schedule.at.second_of_day, 52_200);
    assert_eq!(schedule.at.hour(), 14);
    assert_eq!(schedule.at.minute(), 30);
    assert_eq!(schedule.at.second(), 0);
    assert_eq!(schedule.at.nanosecond, 0);
}

#[test]
fn earlier_today_rolls_to_tomorrow() {
    let now = at(DAY, 10, 0, 0, 0);
    let schedule = resolve(9, 0, now).unwrap();
    assert_eq!(schedule.at, at(DAY + 1, 9, 0, 0, 0));
}

#[test]
fn the_present_minute_rolls_to_tomorrow() {
    let exact = at(DAY, 10, 0, 0, 0);
    assert_eq!(resolve(10, 0, exact).unwrap().at, at(DAY + 1, 10, 0, 0, 0));
    let inside = at(DAY, 10, 0, 0, 500_000_000);
    assert_eq!(resolve(10, 0, inside).unwrap().at, at(DAY + 1, 10, 0, 0, 0));
    let before = at(DAY, 9, 59, 59, 999_999_999);
    assert_eq!(resolve(10, 0, before).unwrap().at, at(DAY, 10, 0, 0, 0));
}

#[test]
fn resolved_time_is_always_ahead() {
    for hour in 0..24u32 {
        for minute in 0..60u32 {
            for now in [at(DAY, 0, 0, 0, 0), at(DAY, 12, 30, 15, 7), at(DAY, 23, 59, 59, 999_999_999)] {
                let schedule = resolve(hour, minute, now).unwrap();
                assert!(now.nanos_until(&schedule.at) > 0);
                assert!(now.nanos_until(&schedule.at) <= 86_400_000_000_000);
                assert_eq!(schedule.at.hour(), hour);
                assert_eq!(schedule.at.minute(), minute);
                assert_eq!(schedule.at.second(), 0);
                assert_eq!(schedule.at.nanosecond, 0);
                assert!(schedule.at.day == now.day || schedule.at.day == now.day + 1);
            }
        }
    }
}

#[test]
fn remaining_counts_nanoseconds() {
    let schedule = Schedule { at: at(DAY, 14, 30, 0, 0) };
    assert_eq!(schedule.remaining(&at(DAY, 14, 29, 0, 0)), 60_000_000_000);
    assert_eq!(schedule.remaining(&at(DAY, 14, 29, 59, 999_999_999)), 1);
    assert_eq!(schedule.remaining(&at(DAY, 14, 30, 0, 0)), 0);
    assert_eq!(schedule.remaining(&at(DAY, 14, 30, 0, 1)), -1);
    assert_eq!(schedule.remaining(&at(DAY - 1, 14, 30, 0, 0)), 86_400_000_000_000);
}

#[test]
fn remaining_honours_the_offset() {
    let schedule = Schedule { at: at(DAY, 14, 30, 0, 0) };
    let utc_now = LocalInstant::new(DAY, 13, 0, 0, 0, 0).unwrap();
    assert_eq!(schedule.remaining(&utc_now), 30 * 60_000_000_000);
}

#[test]
fn components_are_validated() {
    assert!(LocalInstant::new(DAY, 24, 0, 0, 0, 0).is_none());
    assert!(LocalInstant::new(DAY, 0, 60, 0, 0, 0).is_none());
    assert!(LocalInstant::new(DAY, 0, 0, 60, 0, 0).is_none());
    assert!(LocalInstant::new(DAY, 0, 0, 0, 1_000_000_000, 0).is_none());
    assert!(LocalInstant::new(DAY, 0, 0, 0, 0, 86_400).is_none());
    assert!(LocalInstant::new(DAY, 0, 0, 0, 0, -86_400).is_none());
    let t = LocalInstant::new(DAY, 23, 59, 58, 7, -3600).unwrap();
    assert_eq!(t.second_of_day, 86_398);
    assert_eq!((t.hour(), t.minute(), t.second()), (23, 59, 58));
}

#[test]
fn hour_and_minute_checks() {
    assert_eq!(check_hour(23), Ok(23));
    assert_eq!(check_hour(0), Ok(0));
    assert_eq!(check_hour(24), Err(ScheduleError::HourOutOfRange));
    assert_eq!(check_minute(59), Ok(59));
    assert_eq!(check_minute(60), Err(ScheduleError::MinuteOutOfRange));
}

#[test]
fn instant_text_shows_date_time_and_offset() {
    assert_eq!(at(DAY, 14, 30, 0, 0).text(), Some("2020-05-01 14:30:00 +01:00".to_string()));
    let west = LocalInstant::new(DAY + 1, 9, 0, 0, 0, -5 * 3600).unwrap();
    assert_eq!(west.text(), Some("2020-05-02 09:00:00 -05:00".to_string()));
}

#[test]
fn instant_text_is_none_outside_the_calendar() {
    let far = LocalInstant { day: i32::MAX, second_of_day: 0, nanosecond: 0, utc_offset: 0 };
    assert_eq!(far.text(), None);
}

#[test]
fn instant_text_agrees_with_chrono() {
    let zone = chrono::FixedOffset::east_opt(3600).unwrap();
    let expected = zone.with_ymd_and_hms(2020, 5, 1, 14, 30, 0).unwrap();
    assert_eq!(at(DAY, 14, 30, 0, 0).text().unwrap(), format!("{}", expected));
}
