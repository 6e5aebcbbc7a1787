use feed_sync::decimal::{parse_decimal, parse_unsigned, FRACTION_DIGITS};

fn units(whole: u128) -> u128 {
    whole * 10u128.pow(FRACTION_DIGITS as u32)
}

#[test]
fn decimal_integer_text() {
    assert_eq!(parse_decimal("10"), Some(units(10)));
    assert_eq!(parse_decimal("0"), Some(0));
    assert_eq!(parse_decimal("000"), Some(0));
}

#[test]
fn decimal_fraction_text() {
    assert_eq!(parse_decimal("67890.125"), Some(units(67890) + 125 * 10u128.pow(15)));
    assert_eq!(parse_decimal("0.000000000000000001"), Some(1));
    assert_eq!(parse_decimal("0.000"), Some(0));
}

#[test]
fn decimal_malformed_text() {
    assert_eq!(parse_decimal(""), None);
    assert_eq!(parse_decimal("abc"), None);
    assert_eq!(parse_decimal("1."), None);
    assert_eq!(parse_decimal(".5"), None);
    assert_eq!(parse_decimal("-1"), None);
    assert_eq!(parse_decimal("1.2.3"), None);
    assert_eq!(parse_decimal("1e5"), None);
    assert_eq!(parse_decimal(" 1"), None);
}

#[test]
fn decimal_too_many_fraction_digits() {
    assert_eq!(parse_decimal("0.0000000000000000001"), None);
}

#[test]
fn decimal_overflow() {
    // u128::MAX is about 3.4e38 units, i.e. about 3.4e20 whole units.
    assert_eq!(parse_decimal("340282366920938463464"), None);
    assert_eq!(parse_decimal("340282366920938463463"), Some(units(340282366920938463463)));
    assert_eq!(parse_decimal("340282366920938463463.374607431768211455"), Some(u128::MAX));
    assert_eq!(parse_decimal("340282366920938463463.374607431768211456"), None);
}

#[test]
fn unsigned_text_values() {
    assert_eq!(parse_unsigned("101"), Some(101));
    assert_eq!(parse_unsigned("0"), Some(0));
    assert_eq!(parse_unsigned("18446744073709551615"), Some(u64::MAX));
    assert_eq!(parse_unsigned("18446744073709551616"), None);
    assert_eq!(parse_unsigned(""), None);
    assert_eq!(parse_unsigned("12a"), None);
    assert_eq!(parse_unsigned("1.0"), None);
}
