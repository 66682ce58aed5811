use susfs::number::{parse_i64, parse_or_default_i64, parse_or_default_u64, parse_u64};

#[test]
fn unsigned_numbers_are_read() {
    assert_eq!(parse_u64("0"), Some(0));
    assert_eq!(parse_u64("42"), Some(42));
    assert_eq!(parse_u64("+42"), Some(42));
    assert_eq!(parse_u64("0042"), Some(42));
    assert_eq!(parse_u64("18446744073709551615"), Some(u64::MAX));
    assert_eq!(parse_u64("000000000000000000000000018446744073709551615"), Some(u64::MAX));
}

#[test]
fn what_is_no_unsigned_number_is_refused() {
    assert_eq!(parse_u64(""), None);
    assert_eq!(parse_u64("+"), None);
    assert_eq!(parse_u64("-"), None);
    assert_eq!(parse_u64("-1"), None);
    assert_eq!(parse_u64("-0"), None);
    assert_eq!(parse_u64("++1"), None);
    assert_eq!(parse_u64(" 1"), None);
    assert_eq!(parse_u64("1 "), None);
    assert_eq!(parse_u64("1_000"), None);
    assert_eq!(parse_u64("0x10"), None);
    assert_eq!(parse_u64("12a"), None);
    assert_eq!(parse_u64("1.5"), None);
    assert_eq!(parse_u64("\u{661}\u{662}"), None);
    assert_eq!(parse_u64("1\u{e9}"), None);
    assert_eq!(parse_u64("18446744073709551616"), None);
    assert_eq!(parse_u64("99999999999999999999999999"), None);
}

#[test]
fn signed_numbers_are_read() {
    assert_eq!(parse_i64("0"), Some(0));
    assert_eq!(parse_i64("-0"), Some(0));
    assert_eq!(parse_i64("+7"), Some(7));
    assert_eq!(parse_i64("-7"), Some(-7));
    assert_eq!(parse_i64("1700000000"), Some(1_700_000_000));
    assert_eq!(parse_i64("9223372036854775807"), Some(i64::MAX));
    assert_eq!(parse_i64("-9223372036854775808"), Some(i64::MIN));
    assert_eq!(parse_i64("-0009223372036854775808"), Some(i64::MIN));
}

#[test]
fn what_is_no_signed_number_is_refused() {
    assert_eq!(parse_i64(""), None);
    assert_eq!(parse_i64("+"), None);
    assert_eq!(parse_i64("-"), None);
    assert_eq!(parse_i64("--1"), None);
    assert_eq!(parse_i64("+-1"), None);
    assert_eq!(parse_i64("-+1"), None);
    assert_eq!(parse_i64("1-"), None);
    assert_eq!(parse_i64("9223372036854775808"), None);
    assert_eq!(parse_i64("-9223372036854775809"), None);
    assert_eq!(parse_i64("default"), None);
}

#[test]
fn reading_agrees_with_the_standard_library() {
    let samples = [
        "", "0", "1", "+1", "-1", "+", "-", "00", "+00", "-00", "007", "12345678901234567890",
        "18446744073709551615", "18446744073709551616", "9223372036854775807",
        "9223372036854775808", "-9223372036854775808", "-9223372036854775809", " 5", "5 ", "5\n",
        "5a", "a5", "0x5", "1e3", "1_0", "++5", "--5", "+-5", "default", "Default", "\u{ff11}",
        "1\0", "340282366920938463463374607431768211456",
    ];
    for s in samples {
        assert_eq!(parse_u64(s), s.parse::<u64>().ok(), "u64 {:?}", s);
        assert_eq!(parse_i64(s), s.parse::<i64>().ok(), "i64 {:?}", s);
    }
}

#[test]
fn default_keeps_the_real_value() {
    assert_eq!(parse_or_default_u64("default", 4711), Some(4711));
    assert_eq!(parse_or_default_i64("default", -4711), Some(-4711));
}

#[test]
fn default_and_the_value_written_out_agree() {
    for real in [0u64, 1, 9, 10, 4096, 1 << 32, u64::MAX] {
        let written = real.to_string();
        assert_eq!(parse_or_default_u64("default", real), parse_or_default_u64(&written, 3));
    }
    for real in [0i64, -1, 1, 999_999_999, i64::MIN, i64::MAX] {
        let written = real.to_string();
        assert_eq!(parse_or_default_i64("default", real), parse_or_default_i64(&written, 3));
    }
}

#[test]
fn a_number_replaces_the_real_value() {
    assert_eq!(parse_or_default_u64("12", 4711), Some(12));
    assert_eq!(parse_or_default_i64("-12", 4711), Some(-12));
}

#[test]
fn neither_default_nor_a_number_is_refused() {
    for s in ["", "defaults", "DEFAULT", "default ", "defaul", "abc", "1x", "d\u{e9}fault"] {
        assert_eq!(parse_or_default_u64(s, 1), None, "{:?}", s);
        assert_eq!(parse_or_default_i64(s, 1), None, "{:?}", s);
    }
    assert_eq!(parse_or_default_u64("-1", 1), None);
}
