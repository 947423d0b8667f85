use midimon::fmt::{format_bpm, format_elapsed, i32_to_string, pad_left, pad_right, pad_u64, u64_to_string};

#[test]
fn decimal_zero() {
    assert_eq!(u64_to_string(0), "0");
}

#[test]
fn decimal_round_numbers() {
    assert_eq!(u64_to_string(10), "10");
    assert_eq!(u64_to_string(100), "100");
    assert_eq!(u64_to_string(1234567890), "1234567890");
}

#[test]
fn decimal_max() {
    assert_eq!(u64_to_string(u64::MAX), "18446744073709551615");
}

#[test]
fn signed_decimal() {
    assert_eq!(i32_to_string(0), "0");
    assert_eq!(i32_to_string(42), "42");
    assert_eq!(i32_to_string(-1), "-1");
    assert_eq!(i32_to_string(i32::MIN), "-2147483648");
    assert_eq!(i32_to_string(i32::MAX), "2147483647");
}

#[test]
fn pad_left_shorter_and_longer() {
    assert_eq!(pad_left("7", 3), "  7");
    assert_eq!(pad_left("1234", 3), "1234");
    assert_eq!(pad_left("", 2), "  ");
    assert_eq!(pad_left("ab", 2), "ab");
}

#[test]
fn pad_right_shorter_and_longer() {
    assert_eq!(pad_right("C5", 3), "C5 ");
    assert_eq!(pad_right("A#10", 3), "A#10");
    assert_eq!(pad_right("", 1), " ");
}

#[test]
fn pad_number() {
    assert_eq!(pad_u64(2, 2), " 2");
    assert_eq!(pad_u64(99, 3), " 99");
}

#[test]
fn elapsed_column() {
    assert_eq!(format_elapsed(0), "     0.000");
    assert_eq!(format_elapsed(999), "     0.000");
    assert_eq!(format_elapsed(1234567), "     1.234");
    assert_eq!(format_elapsed(499992), "     0.499");
    assert_eq!(format_elapsed(3600000000), "  3600.000");
    assert_eq!(format_elapsed(12345678901234), "12345678.901");
}

#[test]
fn bpm_column() {
    assert_eq!(format_bpm(1200), "120.0");
    assert_eq!(format_bpm(1205), "120.5");
    assert_eq!(format_bpm(7), "0.7");
    assert_eq!(format_bpm(0), "0.0");
}
