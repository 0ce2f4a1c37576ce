use astraos::clock::{clock_label, date_label, format_clock, format_date, format_timestamp, timestamp, LocalDateTime};

fn at(year: i32, month: u32, day: u32, hour: u32, minute: u32, second: u32, nanosecond: u32) -> LocalDateTime {
    LocalDateTime { year, month, day, hour, minute, second, nanosecond, weekday: 0 }
}

#[test]
fn timestamp_pads_every_field() {
    assert_eq!(format_timestamp(&at(2024, 3, 7, 9, 5, 2, 0)), "20240307_090502");
    assert_eq!(format_timestamp(&at(2025, 12, 31, 23, 59, 58, 999_999_999)), "20251231_235958");
}

#[test]
fn timestamp_shows_leap_second_as_60() {
    assert_eq!(format_timestamp(&at(2016, 12, 31, 23, 59, 59, 1_500_000_000)), "20161231_235960");
}

#[test]
fn timestamp_years_outside_four_digits() {
    assert_eq!(format_timestamp(&at(987, 1, 2, 3, 4, 5, 0)), "09870102_030405");
    assert_eq!(format_timestamp(&at(12345, 1, 2, 3, 4, 5, 0)), "+123450102_030405");
    assert_eq!(format_timestamp(&at(-5, 1, 2, 3, 4, 5, 0)), "-00050102_030405");
}

#[test]
fn clock_is_hours_and_minutes() {
    assert_eq!(format_clock(&at(2024, 1, 1, 7, 3, 0, 0)), "07:03");
    assert_eq!(format_clock(&at(2024, 1, 1, 23, 59, 0, 0)), "23:59");
}

#[test]
fn current_texts_have_their_shape() {
    let t = timestamp().unwrap();
    assert_eq!(t.len(), 15);
    assert_eq!(&t[8..9], "_");
    let c = clock_label().unwrap();
    assert_eq!(c.len(), 5);
    assert_eq!(&c[2..3], ":");
}

#[test]
fn date_names_weekday_and_month() {
    let mut t = at(2024, 3, 7, 9, 5, 2, 0);
    t.weekday = 4;
    assert_eq!(format_date(&t), "Thursday 07 March");
    t.weekday = 0;
    t.month = 12;
    t.day = 25;
    assert_eq!(format_date(&t), "Sunday 25 December");
    let d = date_label().unwrap();
    assert!(d.contains(' '));
}
