use passkey_bridge::decimal::u64_to_decimal;

#[test]
fn decimal_of_small_values() {
    assert_eq!(u64_to_decimal(0), "0");
    assert_eq!(u64_to_decimal(7), "7");
    assert_eq!(u64_to_decimal(10), "10");
    assert_eq!(u64_to_decimal(99), "99");
}

#[test]
fn decimal_of_large_values() {
    assert_eq!(u64_to_decimal(1_700_000_000), "1700000000");
    assert_eq!(u64_to_decimal(u64::MAX), "18446744073709551615");
}

#[test]
fn decimal_round_trips_through_parse() {
    for n in [0u64, 1, 9, 10, 11, 12345, 4_294_967_296, u64::MAX] {
        let s = u64_to_decimal(n);
        let back: u64 = s.parse().expect("numeral parses");
        assert_eq!(back, n);
    }
}
