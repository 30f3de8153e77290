use rjr_relay::text::{from_decimal, to_decimal};

#[test]
fn numbers_are_written_in_decimal() {
    assert_eq!(to_decimal(0), b"0".to_vec());
    assert_eq!(to_decimal(7), b"7".to_vec());
    assert_eq!(to_decimal(10), b"10".to_vec());
    assert_eq!(to_decimal(4821), b"4821".to_vec());
    assert_eq!(to_decimal(u32::MAX), b"4294967295".to_vec());
}

#[test]
fn decimal_numbers_are_read() {
    assert_eq!(from_decimal(b"0"), Some(0));
    assert_eq!(from_decimal(b"4821"), Some(4821));
    assert_eq!(from_decimal(b"4294967295"), Some(u32::MAX));
    assert_eq!(from_decimal(b"4294967296"), None);
    assert_eq!(from_decimal(b"99999999999999999999999"), None);
    assert_eq!(from_decimal(b""), None);
    assert_eq!(from_decimal(b"01"), None);
    assert_eq!(from_decimal(b"00"), None);
    assert_eq!(from_decimal(b"12a"), None);
    assert_eq!(from_decimal(b"-1"), None);
    assert_eq!(from_decimal(b"+1"), None);
    assert_eq!(from_decimal(b" 1"), None);
}

#[test]
fn writing_and_reading_decimal_agree() {
    for n in [0u32, 1, 9, 10, 99, 100, 101, 9998, 65535, 1_000_000, u32::MAX - 1] {
        assert_eq!(from_decimal(&to_decimal(n)), Some(n));
    }
}
