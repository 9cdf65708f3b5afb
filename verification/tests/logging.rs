use core_agent::logging::{event_level, format_timestamp, init, iso_now, serialize_failure_line};

#[test]
fn init_succeeds() {
    assert!(init().is_ok());
}

#[test]
fn iso_now_returns_nonempty() {
    let ts = iso_now();
    assert!(!ts.is_empty());
}

#[test]
fn iso_now_is_iso_8601() {
    let ts = iso_now();
    let b = ts.as_bytes();
    assert_eq!(b.len(), 24);
    assert_eq!((b[4], b[7], b[10], b[13], b[16], b[19], b[23]), (b'-', b'-', b'T', b':', b':', b'.', b'Z'));
    assert!(ts.starts_with("20"));
}

#[test]
fn timestamp_format() {
    assert_eq!(format_timestamp(0, 0), "1970-01-01T00:00:00.000Z");
    assert_eq!(format_timestamp(1700000000, 42), "2023-11-14T22:13:20.042Z");
    assert_eq!(format_timestamp(951782400, 7), "2000-02-29T00:00:00.007Z");
    assert_eq!(format_timestamp(951868799, 999), "2000-02-29T23:59:59.999Z");
    assert_eq!(format_timestamp(1725029869, 7), "2024-08-30T14:57:49.007Z");
    assert_eq!(format_timestamp(4102444800, 0), "2100-01-01T00:00:00.000Z");
    assert_eq!(format_timestamp(4107542399, 0), "2100-02-28T23:59:59.000Z");
    assert_eq!(format_timestamp(253402300800, 1), "+10000-01-01T00:00:00.001Z");
}

#[test]
fn fallback_log_line() {
    assert_eq!(
        serialize_failure_line("executor", "dispatch"),
        "{\"error\":\"serialize failed\",\"module\":\"executor\",\"event\":\"dispatch\"}"
    );
}

#[test]
fn error_events_log_at_error_level() {
    assert_eq!(event_level("error"), "error");
    assert_eq!(event_level("dispatch"), "info");
}
