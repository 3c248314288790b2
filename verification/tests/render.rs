use bulk_fetch::{render_duration_readable, run_folder_name};
use chrono::Duration;

#[test]
fn test_one_hour() {
    let duration = Duration::hours(1);
    assert_eq!(render_duration_readable(duration.num_seconds() as u64), "01:00:00");
}

#[test]
fn test_one_minute_one_second() {
    let mut duration = Duration::minutes(1);
    duration = duration + Duration::seconds(1);
    assert_eq!(render_duration_readable(duration.num_seconds() as u64), "00:01:01");
}

#[test]
fn test_one_minute_61_seconds() {
    let mut duration = Duration::minutes(1);
    duration = duration + Duration::seconds(61);
    assert_eq!(render_duration_readable(duration.num_seconds() as u64), "00:02:01");
}

#[test]
fn test_one_hour_one_minute_one_second() {
    assert_eq!(render_duration_readable(3661), "01:01:01");
}

#[test]
fn test_zero_seconds() {
    assert_eq!(render_duration_readable(0), "00:00:00");
}

#[test]
fn test_hours_keep_all_digits_past_two() {
    assert_eq!(render_duration_readable(100 * 3600 + 61), "100:01:01");
}

#[test]
fn run_folder_name_is_date_stamped() {
    assert_eq!(run_folder_name(2024, 1, 9), "20240109");
    assert_eq!(run_folder_name(2024, 12, 31), "20241231");
    assert_eq!(run_folder_name(800, 6, 1), "08000601");
}
