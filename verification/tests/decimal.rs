use database_pools::decimal::{parse_u32, parse_u64, parse_usize};

#[test]
fn plain_digits_parse() {
    assert_eq!(parse_u32("0"), Some(0));
    assert_eq!(parse_u32("7"), Some(7));
    assert_eq!(parse_u32("042"), Some(42));
    assert_eq!(parse_u64("15000"), Some(15_000));
    assert_eq!(parse_usize("8"), Some(8));
}

#[test]
fn leading_plus_is_accepted() {
    assert_eq!(parse_u32("+7"), Some(7));
    assert_eq!(parse_u64("+0"), Some(0));
}

#[test]
fn malformed_strings_are_rejected() {
    assert_eq!(parse_u32(""), None);
    assert_eq!(parse_u32("+"), None);
    assert_eq!(parse_u32("-1"), None);
    assert_eq!(parse_u32("abc"), None);
    assert_eq!(parse_u32("4 2"), None);
    assert_eq!(parse_u32("42x"), None);
    assert_eq!(parse_u32("4.2"), None);
    assert_eq!(parse_u32("٤٢"), None);
}

#[test]
fn bounds_are_respected() {
    assert_eq!(parse_u32("4294967295"), Some(u32::MAX));
    assert_eq!(parse_u32("4294967296"), None);
    assert_eq!(parse_u64("18446744073709551615"), Some(u64::MAX));
    assert_eq!(parse_u64("18446744073709551616"), None);
    assert_eq!(parse_u64("99999999999999999999999999"), None);
}

#[test]
fn agrees_with_std_parsing() {
    for s in ["0", "1", "+1", "", "+", "-0", "10", "007", "4294967295", "4294967296", "x"] {
        assert_eq!(parse_u32(s), s.parse::<u32>().ok(), "input {s:?}");
        assert_eq!(parse_u64(s), s.parse::<u64>().ok(), "input {s:?}");
        assert_eq!(parse_usize(s), s.parse::<usize>().ok(), "input {s:?}");
    }
}
