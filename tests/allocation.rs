use remote_read::allocation::{filled_buffer, parse_byte_count, SENTINEL};

#[test]
fn parses_decimal_counts() {
    assert_eq!(parse_byte_count("0"), Some(0));
    assert_eq!(parse_byte_count("1048576"), Some(1 << 20));
    assert_eq!(parse_byte_count("134217728"), Some(128 << 20));
    assert_eq!(parse_byte_count("+42"), Some(42));
    assert_eq!(parse_byte_count("007"), Some(7));
}

#[test]
fn rejects_malformed_counts() {
    assert_eq!(parse_byte_count(""), None);
    assert_eq!(parse_byte_count("+"), None);
    assert_eq!(parse_byte_count("-1"), None);
    assert_eq!(parse_byte_count("12a"), None);
    assert_eq!(parse_byte_count(" 12"), None);
    assert_eq!(parse_byte_count("1.5"), None);
}

#[test]
fn count_limits_match_usize() {
    let max = usize::MAX.to_string();
    assert_eq!(parse_byte_count(&max), Some(usize::MAX));
    let over = format!("{}0", usize::MAX);
    assert_eq!(parse_byte_count(&over), None);
    assert_eq!(parse_byte_count("18446744073709551616"), None);
}

#[test]
fn buffer_is_all_sentinel() {
    let b = filled_buffer(1 << 20);
    assert_eq!(b.len(), 1 << 20);
    assert!(b.iter().all(|&x| x == SENTINEL));
    assert_eq!(SENTINEL, 0x0a);
    assert!(filled_buffer(0).is_empty());
}
