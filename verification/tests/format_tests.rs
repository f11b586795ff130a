use time_tracker::capture::{format_timestamp, screenshot_filename, LocalTime};
use time_tracker::timer::format_hhmmss;

#[test]
fn formats_one_hour_one_minute_one_second() {
    assert_eq!(format_hhmmss(3661), "01:01:01");
}

#[test]
fn formats_zero_seconds() {
    assert_eq!(format_hhmmss(0), "00:00:00");
}

#[test]
fn hours_field_grows_beyond_two_digits() {
    assert_eq!(format_hhmmss(360_000), "100:00:00");
}

#[test]
fn formats_just_under_one_hour() {
    assert_eq!(format_hhmmss(3599), "00:59:59");
}

#[test]
fn timestamp_zero_pads_every_field() {
    let t = LocalTime { year: 2024, month: 3, day: 7, hour: 9, minute: 5, second: 30 };
    assert_eq!(format_timestamp(&t), "2024-03-07_09-05-30");
}

#[test]
fn timestamp_pads_small_years_to_four_digits() {
    let t = LocalTime { year: 44, month: 12, day: 31, hour: 23, minute: 59, second: 59 };
    assert_eq!(format_timestamp(&t), "0044-12-31_23-59-59");
}

#[test]
fn timestamp_keeps_five_digit_years_whole() {
    let t = LocalTime { year: 12345, month: 1, day: 2, hour: 0, minute: 0, second: 0 };
    assert_eq!(format_timestamp(&t), "12345-01-02_00-00-00");
}

#[test]
fn timestamp_signs_years_before_year_zero() {
    let t = LocalTime { year: -44, month: 3, day: 15, hour: 12, minute: 0, second: 0 };
    assert_eq!(format_timestamp(&t), "-0044-03-15_12-00-00");
}

#[test]
fn filename_wraps_the_timestamp() {
    assert_eq!(
        screenshot_filename("2024-03-07_09-05-30"),
        "screenshot_2024-03-07_09-05-30.png"
    );
}
