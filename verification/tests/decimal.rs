use rapl_lib::decimal::parse_decimal;

#[test]
fn parse_decimal_reads_canonical_numbers() {
    assert_eq!(parse_decimal(b"0"), Some(0));
    assert_eq!(parse_decimal(b"7"), Some(7));
    assert_eq!(parse_decimal(b"10"), Some(10));
    assert_eq!(parse_decimal(b"658947"), Some(658947));
    assert_eq!(parse_decimal(b"1700000000000"), Some(1700000000000));
    assert_eq!(parse_decimal(b"18446744073709551615"), Some(u64::MAX as u128));
    assert_eq!(parse_decimal(b"18446744073709551616"), Some(u64::MAX as u128 + 1));
}

#[test]
fn parse_decimal_reads_up_to_128_bits() {
    assert_eq!(parse_decimal(b"340282366920938463463374607431768211455"), Some(u128::MAX));
    assert_eq!(parse_decimal(b"340282366920938463463374607431768211456"), None);
    assert_eq!(parse_decimal(b"340282366920938463463374607431768211460"), None);
    assert_eq!(parse_decimal(b"3402823669209384634633746074317682114550"), None);
    assert_eq!(parse_decimal(b"999999999999999999999999999999999999999"), None);
}

#[test]
fn parse_decimal_refuses_what_is_not_canonical() {
    assert_eq!(parse_decimal(b""), None);
    assert_eq!(parse_decimal(b"00"), None);
    assert_eq!(parse_decimal(b"01"), None);
    assert_eq!(parse_decimal(b"007"), None);
    assert_eq!(parse_decimal(b"+1"), None);
    assert_eq!(parse_decimal(b"-1"), None);
    assert_eq!(parse_decimal(b" 1"), None);
    assert_eq!(parse_decimal(b"1 "), None);
    assert_eq!(parse_decimal(b"12a"), None);
    assert_eq!(parse_decimal(b"a12"), None);
    assert_eq!(parse_decimal(b"1,2"), None);
    assert_eq!(parse_decimal(b"1\n"), None);
    assert_eq!(parse_decimal(b"/"), None);
    assert_eq!(parse_decimal(b":"), None);
}

#[test]
fn parse_decimal_agrees_with_the_standard_formatter() {
    for number in [0u128, 1, 9, 10, 11, 99, 100, 101, 4294967295, 4294967296, u128::MAX] {
        assert_eq!(parse_decimal(number.to_string().as_bytes()), Some(number));
    }
}
