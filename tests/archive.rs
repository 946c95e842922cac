use eval_bot::archive::{archive_file_name, Timestamp};

fn ts(year: u32, month: u32, day: u32, hour: u32, minute: u32, second: u32) -> Timestamp {
    Timestamp { year, month, day, hour, minute, second }
}

#[test]
fn archive_name_pads_parts() {
    let t = ts(2021, 3, 7, 9, 5, 2);
    assert_eq!(archive_file_name(&t, 12345, "py"), "20210307_090502_12345.py");
}

#[test]
fn archive_name_of_negative_id() {
    let t = ts(1999, 12, 31, 23, 59, 59);
    assert_eq!(archive_file_name(&t, -42, "cc"), "19991231_235959_-42.cc");
    assert_eq!(archive_file_name(&t, 0, "rs"), "19991231_235959_0.rs");
}

#[test]
fn archive_name_pads_small_years() {
    let t = ts(7, 1, 1, 0, 0, 0);
    assert_eq!(archive_file_name(&t, 9, "sh"), "00070101_000000_9.sh");
}

#[test]
fn timestamp_validity() {
    assert!(ts(2020, 2, 29, 0, 0, 0).is_valid());
    assert!(!ts(2021, 2, 29, 0, 0, 0).is_valid());
    assert!(!ts(1900, 2, 29, 0, 0, 0).is_valid());
    assert!(ts(2000, 2, 29, 0, 0, 0).is_valid());
    assert!(!ts(2021, 4, 31, 0, 0, 0).is_valid());
    assert!(!ts(2021, 13, 1, 0, 0, 0).is_valid());
    assert!(!ts(2021, 1, 1, 24, 0, 0).is_valid());
    assert!(!ts(10000, 1, 1, 0, 0, 0).is_valid());
}
