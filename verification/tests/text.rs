use cohesion_coupling::text::{repeat_str, u64_to_decimal};

#[test]
fn decimal_rendering() {
    assert_eq!(u64_to_decimal(0), "0");
    assert_eq!(u64_to_decimal(7), "7");
    assert_eq!(u64_to_decimal(10), "10");
    assert_eq!(u64_to_decimal(120), "120");
    assert_eq!(u64_to_decimal(9876543210), "9876543210");
    assert_eq!(u64_to_decimal(u64::MAX), "18446744073709551615");
}

#[test]
fn repeated_text() {
    assert_eq!(repeat_str("-", 0), "");
    assert_eq!(repeat_str("-", 3), "---");
    assert_eq!(repeat_str("ab", 2), "abab");
    assert_eq!(repeat_str("", 5), "");
}
