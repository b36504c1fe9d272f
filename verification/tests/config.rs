use conduit::clock::TimeOfDay;
use conduit::config::{is_within_hours, ProviderConfig, ScheduleConfig};

fn time(hour: u32, minute: u32, second: u32) -> TimeOfDay {
    TimeOfDay { seconds: hour * 3600 + minute * 60 + second, nanoseconds: 0 }
}

fn scheduled(start: &str, end: &str) -> ProviderConfig {
    let mut config = ProviderConfig::empty();
    config.schedule = Some(ScheduleConfig { start: start.to_string(), end: end.to_string() });
    config
}

#[test]
fn serves_in_the_hours_of_a_day() {
    let config = scheduled("00:00", "07:00");
    assert!(config.is_within_schedule_at(time(0, 0, 0)));
    assert!(config.is_within_schedule_at(time(6, 59, 59)));
    assert!(config.is_within_schedule_at(time(7, 0, 0)));
    assert!(!config.is_within_schedule_at(TimeOfDay { seconds: 7 * 3600, nanoseconds: 1 }));
    assert!(!config.is_within_schedule_at(time(23, 59, 59)));
}

#[test]
fn serves_overnight() {
    let config = scheduled("22:00", "07:00");
    assert!(config.is_within_schedule_at(time(22, 0, 0)));
    assert!(config.is_within_schedule_at(time(23, 59, 59)));
    assert!(config.is_within_schedule_at(time(3, 0, 0)));
    assert!(config.is_within_schedule_at(time(7, 0, 0)));
    assert!(!config.is_within_schedule_at(time(7, 0, 1)));
    assert!(!config.is_within_schedule_at(time(12, 0, 0)));
    assert!(!config.is_within_schedule_at(time(21, 59, 59)));
}

#[test]
fn unreadable_start_stands_for_midnight() {
    let config = scheduled("early", "07:00");
    assert!(config.is_within_schedule_at(time(0, 0, 0)));
    assert!(!config.is_within_schedule_at(time(7, 0, 1)));
}

#[test]
fn unreadable_end_stands_for_the_last_second() {
    let config = scheduled("22:00", "25:00");
    assert!(config.is_within_schedule_at(time(23, 59, 59)));
    assert!(!config.is_within_schedule_at(TimeOfDay { seconds: 86_399, nanoseconds: 1 }));
    assert!(!config.is_within_schedule_at(time(21, 0, 0)));
}

#[test]
fn hours_of_one_moment_are_open_for_that_moment() {
    let noon = Some(time(12, 0, 0));
    assert!(is_within_hours(noon, noon, time(12, 0, 0)));
    assert!(!is_within_hours(noon, noon, time(12, 0, 1)));
    assert!(is_within_hours(None, None, time(12, 0, 1)));
}

#[test]
fn without_schedule_always_serves() {
    let config = ProviderConfig::empty();
    assert!(config.is_within_schedule());
    assert!(config.is_within_schedule_at(time(4, 0, 0)));
}

#[test]
fn unreadable_hours_leave_the_day_open() {
    let config = scheduled("dawn", "dusk");
    assert!(config.is_within_schedule_at(time(0, 0, 0)));
    assert!(config.is_within_schedule_at(time(23, 59, 59)));
    assert!(!config.is_within_schedule_at(TimeOfDay { seconds: 86_399, nanoseconds: 5 }));
}
