use star_escrow::deadline::{
    deadline_from_rfc3339_seconds, format_timestamp, is_after, is_future_timestamp,
    parse_iso8601_to_timestamp, timestamp_text, LAST_FOUR_DIGIT_YEAR_SECOND,
};
use star_escrow::error::CliError;

#[test]
fn test_parse_utc_zulu() {
    let ts = parse_iso8601_to_timestamp("2026-12-31T23:59:59Z").expect("parse");
    assert_eq!(ts, 1_798_761_599);
}

#[test]
fn test_parse_with_positive_offset() {
    let ts = parse_iso8601_to_timestamp("2026-12-31T23:59:59+02:00").expect("parse offset");
    assert_eq!(ts, 1_798_754_399);
}

#[test]
fn test_parse_epoch_zero() {
    let ts = parse_iso8601_to_timestamp("1970-01-01T00:00:00Z").expect("epoch");
    assert_eq!(ts, 0);
}

#[test]
fn test_parse_invalid_string_returns_error() {
    let err = parse_iso8601_to_timestamp("not-a-date").expect_err("should fail");
    let msg = err.to_string();
    assert!(msg.contains("Invalid deadline"), "Error should be CliError::InvalidDeadline: {}", msg);
}

#[test]
fn test_parse_invalid_format_errors() {
    assert!(parse_iso8601_to_timestamp("2026/12/31").is_err());
    assert!(parse_iso8601_to_timestamp("").is_err());
}

#[test]
fn test_format_epoch_zero() {
    assert_eq!(format_timestamp(0), "1970-01-01T00:00:00Z");
}

#[test]
fn test_format_known_timestamp() {
    assert_eq!(format_timestamp(1_798_761_599), "2026-12-31T23:59:59Z");
}

#[test]
fn test_format_output_is_iso8601() {
    let s = format_timestamp(1_700_000_000);
    assert!(chrono::DateTime::parse_from_rfc3339(&s).is_ok(), "output must be valid ISO 8601: {s}");
}

#[test]
fn test_roundtrip_parse_then_format() {
    let original = "2027-06-15T12:00:00Z";
    let ts = parse_iso8601_to_timestamp(original).expect("parse");
    let formatted = format_timestamp(ts);
    assert_eq!(formatted, original);
}

#[test]
fn test_roundtrip_format_then_parse() {
    let ts: u64 = 1_800_000_000;
    let formatted = format_timestamp(ts);
    let parsed = parse_iso8601_to_timestamp(&formatted).expect("parse back");
    assert_eq!(parsed, ts);
}

#[test]
fn test_past_timestamp_is_not_future() {
    assert!(!is_future_timestamp(0), "epoch is not in the future");
    assert!(!is_future_timestamp(1_000_000_000), "year 2001 is not in the future");
}

#[test]
fn test_far_future_timestamp_is_future() {
    assert!(is_future_timestamp(4_102_444_800));
}

// Own tests.

#[test]
fn roundtrip_at_the_ends_of_the_four_digit_years() {
    for ts in [0u64, 1, 86_399, 951_782_400, LAST_FOUR_DIGIT_YEAR_SECOND] {
        assert_eq!(parse_iso8601_to_timestamp(&format_timestamp(ts)).unwrap(), ts);
    }
    assert_eq!(format_timestamp(LAST_FOUR_DIGIT_YEAR_SECOND), "9999-12-31T23:59:59Z");
}

#[test]
fn format_of_timestamps_beyond_i64() {
    assert_eq!(format_timestamp(u64::MAX), "<invalid timestamp: 18446744073709551615>");
    assert_eq!(format_timestamp(1u64 << 63), "<invalid timestamp: 9223372036854775808>");
}

#[test]
fn rendered_texts_have_one_shape_and_follow_time_order() {
    let stamps = [0u64, 59, 60, 3_599, 86_399, 86_400, 1_798_761_599, LAST_FOUR_DIGIT_YEAR_SECOND];
    let texts: Vec<String> = stamps.iter().map(|t| format_timestamp(*t)).collect();
    for t in &texts {
        let b = t.as_bytes();
        assert_eq!(b.len(), 20);
        assert_eq!((b[4], b[7], b[10], b[13], b[16], b[19]), (b'-', b'-', b'T', b':', b':', b'Z'));
    }
    for w in texts.windows(2) {
        assert!(w[0] < w[1], "{} < {}", w[0], w[1]);
    }
}

#[test]
fn canonical_texts_come_back_from_format() {
    for s in ["1970-01-01T00:00:00Z", "2000-02-29T12:34:56Z", "9999-12-31T23:59:59Z"] {
        assert_eq!(format_timestamp(parse_iso8601_to_timestamp(s).unwrap()), s);
    }
}

#[test]
fn format_of_a_timestamp_out_of_chrono_range() {
    assert_eq!(
        format_timestamp(9_000_000_000_000_000_000),
        "<invalid timestamp: 9000000000000000000>"
    );
}

#[test]
fn timestamp_text_without_rendering() {
    assert_eq!(timestamp_text(0, None), "<invalid timestamp: 0>");
    assert_eq!(timestamp_text(1234567890, None), "<invalid timestamp: 1234567890>");
    assert_eq!(timestamp_text(5, Some("x".to_string())), "x");
}

#[test]
fn parse_before_epoch_is_refused() {
    let err = parse_iso8601_to_timestamp("1969-12-31T23:59:59Z").expect_err("before epoch");
    assert!(matches!(
        &err,
        CliError::InvalidDeadline(s) if s == "deadline must be after Unix epoch (1970-01-01T00:00:00Z)"
    ));
}

#[test]
fn parse_refusal_carries_the_text() {
    let err = parse_iso8601_to_timestamp("tomorrow").expect_err("refused");
    assert!(matches!(&err, CliError::InvalidDeadline(s) if s == "tomorrow"));
}

#[test]
fn parse_lower_case_and_negative_offset() {
    assert_eq!(parse_iso8601_to_timestamp("1970-01-01t00:00:00z").unwrap(), 0);
    assert_eq!(parse_iso8601_to_timestamp("1970-01-01T00:00:00-01:00").unwrap(), 3600);
}

#[test]
fn deadline_from_seconds_cases() {
    assert_eq!(deadline_from_rfc3339_seconds("t", Some(42)).unwrap(), 42);
    assert!(matches!(
        deadline_from_rfc3339_seconds("t", Some(-1)),
        Err(CliError::InvalidDeadline(s)) if s.starts_with("deadline must be after Unix epoch")
    ));
    assert!(matches!(
        deadline_from_rfc3339_seconds("t", None),
        Err(CliError::InvalidDeadline(s)) if s == "t"
    ));
}

#[test]
fn is_after_reads_the_timestamp_as_signed() {
    assert!(is_after(10, 9));
    assert!(!is_after(9, 9));
    assert!(is_after(u64::MAX, 0));
    assert!(is_after(u64::MAX, i64::MAX));
    assert!(is_after(0, -1));
    assert!(!is_after(0, 0));
}

#[test]
fn timestamps_beyond_i64_are_future() {
    assert!(is_future_timestamp(u64::MAX));
    assert!(is_future_timestamp(1u64 << 63));
}
