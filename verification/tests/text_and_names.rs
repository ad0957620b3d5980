use recmi::text::{decimal_text, push_decimal, push_two_digits};
use recmi::timestamp::{
    current_recording_file_name, recording_file_name, recording_file_name_at, Timestamp,
    MAX_NAMED_SECS,
};

#[test]
fn decimal_of_zero_and_large_numbers() {
    assert_eq!(decimal_text(0), "0");
    assert_eq!(decimal_text(7), "7");
    assert_eq!(decimal_text(10), "10");
    assert_eq!(decimal_text(1234567), "1234567");
    assert_eq!(decimal_text(u64::MAX), "18446744073709551615");
}

#[test]
fn decimal_appends_to_existing_text() {
    let mut s = String::from("n=");
    push_decimal(&mut s, 42);
    assert_eq!(s, "n=42");
}

#[test]
fn two_digit_padding() {
    let mut s = String::new();
    push_two_digits(&mut s, 0);
    push_two_digits(&mut s, 5);
    push_two_digits(&mut s, 59);
    push_two_digits(&mut s, 123);
    assert_eq!(s, "000559123");
}

fn ts(year: i32, month: u32, day: u32, hour: u32, minute: u32, second: u32) -> Timestamp {
    Timestamp { year, month, day, hour, minute, second }
}

#[test]
fn file_name_of_documented_example() {
    assert_eq!(recording_file_name(&ts(2026, 8, 17, 19, 52, 31)), "2026-08-17_19-52-31.mp4");
}

#[test]
fn file_name_pads_every_field() {
    assert_eq!(recording_file_name(&ts(2024, 1, 2, 3, 4, 5)), "2024-01-02_03-04-05.mp4");
    assert_eq!(recording_file_name(&ts(999, 12, 31, 23, 59, 59)), "0999-12-31_23-59-59.mp4");
}

#[test]
fn file_name_of_leap_day() {
    assert_eq!(recording_file_name(&ts(2024, 2, 29, 0, 0, 0)), "2024-02-29_00-00-00.mp4");
}

#[test]
fn file_name_of_years_outside_four_digits() {
    assert_eq!(recording_file_name(&ts(12345, 6, 7, 8, 9, 10)), "+12345-06-07_08-09-10.mp4");
    assert_eq!(recording_file_name(&ts(-5, 6, 7, 8, 9, 10)), "-0005-06-07_08-09-10.mp4");
}

#[test]
fn current_file_name_has_the_documented_shape() {
    let name = current_recording_file_name().unwrap();
    let b = name.as_bytes();
    assert_eq!(name.len(), 23);
    assert!(name.ends_with(".mp4"));
    assert_eq!(b[4], b'-');
    assert_eq!(b[7], b'-');
    assert_eq!(b[10], b'_');
    assert_eq!(b[13], b'-');
    assert_eq!(b[16], b'-');
    for i in [0usize, 1, 2, 3, 5, 6, 8, 9, 11, 12, 14, 15, 17, 18] {
        assert!(b[i].is_ascii_digit());
    }
}

#[test]
fn file_names_exist_up_to_the_bound() {
    let name = recording_file_name_at(1_786_924_800).unwrap();
    assert_eq!(name.len(), 23);
    assert!(name.starts_with("2026-08-1"));
    assert!(name.ends_with(".mp4"));
    assert!(recording_file_name_at(0).unwrap().starts_with("19"));
    assert!(recording_file_name_at(MAX_NAMED_SECS).unwrap().starts_with("+262142-12-"));
    assert_eq!(recording_file_name_at(MAX_NAMED_SECS + 1), None);
    assert_eq!(recording_file_name_at(u64::MAX), None);
}
