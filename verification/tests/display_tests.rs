use phasmoclock::display;

#[test]
fn decimals() {
    assert_eq!(display::decimal_string(0), "0");
    assert_eq!(display::decimal_string(7), "7");
    assert_eq!(display::decimal_string(10), "10");
    assert_eq!(display::decimal_string(1234567890), "1234567890");
    assert_eq!(display::decimal_string(u64::MAX), u64::MAX.to_string());
}

#[test]
fn padding() {
    assert_eq!(display::zero_padded_string(5, 2), "05");
    assert_eq!(display::zero_padded_string(42, 2), "42");
    assert_eq!(display::zero_padded_string(123, 2), "123");
    assert_eq!(display::zero_padded_string(0, 3), "000");
    assert_eq!(display::zero_padded_string(9, 0), "9");
}

#[test]
fn times() {
    assert_eq!(display::time_string(0, 0), "0.00");
    assert_eq!(display::time_string(12, 345), "12.34");
    assert_eq!(display::time_string(61, 9), "61.00");
    assert_eq!(display::time_string(5, 999), "5.99");
    assert_eq!(display::last_time_string(3, 456), "last: 3.45");
    assert_eq!(display::time_string(7, 250), format!("{}.{:02}", 7, 250 / 10));
}

#[test]
fn multipliers() {
    assert_eq!(display::multiplier_string(50), "050%");
    assert_eq!(display::multiplier_string(100), "100%");
    assert_eq!(display::multiplier_string(5), "005%");
    assert_eq!(display::multiplier_string(1000), "1000%");
}
