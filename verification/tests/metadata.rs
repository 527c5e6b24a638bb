use chrono::{Datelike, Timelike};
use rrm::metadata::{Timestamp, current_timestamp, format_timestamp, render_trashinfo, trashinfo_name};

fn sample() -> Timestamp {
    Timestamp { year: 2024, month: 3, day: 5, hour: 7, minute: 9, second: 11 }
}

#[test]
fn timestamp_format_is_iso_like() {
    assert_eq!(format_timestamp(&sample()), "2024-03-05T07:09:11");
}

#[test]
fn timestamp_format_pads_every_field() {
    let ts = Timestamp { year: 33, month: 1, day: 2, hour: 3, minute: 4, second: 5 };
    assert_eq!(format_timestamp(&ts), "0033-01-02T03:04:05");
}

#[test]
fn timestamp_format_wide_and_negative_years() {
    let ts = Timestamp { year: 12345, month: 12, day: 31, hour: 23, minute: 59, second: 59 };
    assert_eq!(format_timestamp(&ts), "12345-12-31T23:59:59");
    let bc = Timestamp { year: -44, month: 3, day: 15, hour: 12, minute: 0, second: 0 };
    assert_eq!(format_timestamp(&bc), "-0044-03-15T12:00:00");
}

#[test]
fn trashinfo_record_content() {
    let content = render_trashinfo("/a/b/c.txt", &sample());
    assert_eq!(
        content,
        "[Trash Info]\nPath=/a/b/c.txt\nDeletionDate=2024-03-05T07:09:11\n"
    );
}

#[test]
fn trashinfo_name_appends_suffix() {
    assert_eq!(trashinfo_name("c.txt"), "c.txt.trashinfo");
    assert_eq!(trashinfo_name("c(1).txt"), "c(1).txt.trashinfo");
}

#[test]
fn current_timestamp_tracks_the_clock() {
    let before = chrono::Local::now();
    let ts = current_timestamp();
    let after = chrono::Local::now();
    assert!(ts.month >= 1 && ts.month <= 12);
    assert!(ts.day >= 1 && ts.day <= 31);
    assert!(ts.hour < 24 && ts.minute < 60 && ts.second < 60);
    // The reported instant lies between two clock readings a moment apart.
    let to_tuple = |y: i32, mo: u32, d: u32, h: u32, mi: u32, s: u32| (y, mo, d, h, mi, s);
    let b = to_tuple(
        before.year(),
        before.month(),
        before.day(),
        before.hour(),
        before.minute(),
        before.second(),
    );
    let a = to_tuple(
        after.year(),
        after.month(),
        after.day(),
        after.hour(),
        after.minute(),
        after.second(),
    );
    let t = (
        ts.year,
        ts.month as u32,
        ts.day as u32,
        ts.hour as u32,
        ts.minute as u32,
        ts.second as u32,
    );
    assert!(b <= t && t <= a);
}
