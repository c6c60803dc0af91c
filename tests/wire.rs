use twitch_youtube_sync::{
    decimal_string, parse_decimal, probe_content_range_header, resume_content_range_header, resume_offset,
};

#[test]
fn resume_header_from_start_of_file() {
    assert_eq!(resume_content_range_header(0, 1), "bytes 0-0/1");
    assert_eq!(resume_content_range_header(0, 10), "bytes 0-9/10");
}

#[test]
fn resume_header_mid_file() {
    assert_eq!(resume_content_range_header(3000000, 5000000), "bytes 3000000-4999999/5000000");
    assert_eq!(resume_content_range_header(9, 10), "bytes 9-9/10");
}

#[test]
fn resume_header_largest_total() {
    assert_eq!(
        resume_content_range_header(u64::MAX - 1, u64::MAX),
        "bytes 18446744073709551614-18446744073709551614/18446744073709551615"
    );
}

#[test]
fn probe_header() {
    assert_eq!(probe_content_range_header(5000000), "bytes */5000000");
    assert_eq!(probe_content_range_header(0), "bytes */0");
}

#[test]
fn range_header_gives_next_byte() {
    assert_eq!(resume_offset(Some("bytes=0-999")), Some(1000));
    assert_eq!(resume_offset(Some("bytes=0-0")), Some(1));
    assert_eq!(resume_offset(Some("bytes=0-2999999")), Some(3000000));
}

#[test]
fn missing_range_header_gives_zero() {
    assert_eq!(resume_offset(None), Some(0));
}

#[test]
fn probing_twice_gives_same_offset() {
    let first = resume_offset(Some("bytes=0-999"));
    let second = resume_offset(Some("bytes=0-999"));
    assert_eq!(first, second);
    assert_eq!(first, Some(1000));
}

#[test]
fn malformed_range_headers() {
    assert_eq!(resume_offset(Some("bytes=0-")), None);
    assert_eq!(resume_offset(Some("bytes=1-999")), None);
    assert_eq!(resume_offset(Some("bytes=0-99x")), None);
    assert_eq!(resume_offset(Some("bytes 0-999")), None);
    assert_eq!(resume_offset(Some("")), None);
    assert_eq!(resume_offset(Some("bytes=0-+5")), None);
}

#[test]
fn range_header_at_the_limit() {
    assert_eq!(resume_offset(Some("bytes=0-18446744073709551614")), Some(u64::MAX));
    assert_eq!(resume_offset(Some("bytes=0-18446744073709551615")), None);
    assert_eq!(resume_offset(Some("bytes=0-18446744073709551616")), None);
}

#[test]
fn decimal_printing() {
    assert_eq!(decimal_string(0), "0");
    assert_eq!(decimal_string(7), "7");
    assert_eq!(decimal_string(10), "10");
    assert_eq!(decimal_string(1234567890), "1234567890");
    assert_eq!(decimal_string(u64::MAX), "18446744073709551615");
}

#[test]
fn decimal_parsing() {
    assert_eq!(parse_decimal("0"), Some(0));
    assert_eq!(parse_decimal("007"), Some(7));
    assert_eq!(parse_decimal("18446744073709551615"), Some(u64::MAX));
    assert_eq!(parse_decimal("18446744073709551616"), None);
    assert_eq!(parse_decimal(""), None);
    assert_eq!(parse_decimal("-1"), None);
    assert_eq!(parse_decimal("12a"), None);
}
