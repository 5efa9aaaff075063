use ats_scanner::timestamps::{parse_timestamp, Timestamp};

#[test]
fn timestamps_in_rfc3339_and_sqlite_forms() {
    let expected = Timestamp { secs: 1672628645, nanos: 0 };
    assert_eq!(parse_timestamp("2023-01-02T03:04:05Z"), Ok(expected));
    assert_eq!(parse_timestamp("2023-01-02T04:04:05+01:00"), Ok(expected));
    assert_eq!(parse_timestamp("2023-01-02 03:04:05"), Ok(expected));
    assert_eq!(parse_timestamp("2023-01-02T03:04:05"), Ok(expected));
    assert_eq!(
        parse_timestamp("2023-01-02 03:04:05.5"),
        Ok(Timestamp { secs: 1672628645, nanos: 500_000_000 })
    );
}

#[test]
fn unreadable_timestamp_is_named_in_the_error() {
    assert_eq!(
        parse_timestamp("yesterday"),
        Err("Unable to parse timestamp 'yesterday' with any known format".to_string())
    );
}
