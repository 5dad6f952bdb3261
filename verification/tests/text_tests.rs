use local_hotel::text::{i32_to_dec, parse_i32};

#[test]
fn formats_decimals() {
    assert_eq!(i32_to_dec(0), "0");
    assert_eq!(i32_to_dec(7), "7");
    assert_eq!(i32_to_dec(10), "10");
    assert_eq!(i32_to_dec(-123), "-123");
    assert_eq!(i32_to_dec(2147483647), "2147483647");
    assert_eq!(i32_to_dec(-2147483648), "-2147483648");
}

#[test]
fn parses_decimals() {
    assert_eq!(parse_i32("0"), Some(0));
    assert_eq!(parse_i32("42"), Some(42));
    assert_eq!(parse_i32("007"), Some(7));
    assert_eq!(parse_i32("-0"), Some(0));
    assert_eq!(parse_i32("-123"), Some(-123));
    assert_eq!(parse_i32("2147483647"), Some(2147483647));
    assert_eq!(parse_i32("-2147483648"), Some(-2147483648));
}

#[test]
fn rejects_non_numerals() {
    assert_eq!(parse_i32(""), None);
    assert_eq!(parse_i32("-"), None);
    assert_eq!(parse_i32("12a"), None);
    assert_eq!(parse_i32("+5"), None);
    assert_eq!(parse_i32(" 5"), None);
    assert_eq!(parse_i32("2147483648"), None);
    assert_eq!(parse_i32("-2147483649"), None);
    assert_eq!(parse_i32("99999999999999999999"), None);
}

#[test]
fn format_parse_round_trip_on_values() {
    for n in [0, 1, -1, 999, -1000, 2147483647, -2147483648] {
        assert_eq!(parse_i32(&i32_to_dec(n)), Some(n));
    }
}
