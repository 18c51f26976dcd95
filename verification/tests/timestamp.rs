use pake_logs::timestamp::{format_compact_timestamp, format_storage_timestamp};

#[test]
fn compact_timestamp_is_fourteen_digits() {
    let ts = format_compact_timestamp(2025, 1, 2, 3, 4, 5);
    assert_eq!(ts, "20250102030405");
    assert_eq!(ts.len(), 14);
    assert!(ts.chars().all(|c| c.is_ascii_digit()));
}

#[test]
fn compact_timestamp_clamps_out_of_range_years() {
    assert_eq!(format_compact_timestamp(12345, 12, 31, 23, 59, 59), "99991231235959");
    assert_eq!(format_compact_timestamp(-5, 1, 1, 0, 0, 0), "10000101000000");
}

#[test]
fn storage_timestamp_format() {
    assert_eq!(
        format_storage_timestamp(2025, 1, 2, 3, 4, 5, 6),
        "2025-01-02 03:04:05.006"
    );
    assert_eq!(
        format_storage_timestamp(2025, 12, 31, 23, 59, 59, 999),
        "2025-12-31 23:59:59.999"
    );
}

#[test]
fn storage_timestamp_clamps_leap_second_millis() {
    assert_eq!(
        format_storage_timestamp(2016, 12, 31, 23, 59, 59, 1500),
        "2016-12-31 23:59:59.999"
    );
}
