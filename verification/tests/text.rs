use bus_history::text::decimal_string;

#[test]
fn decimal_string_of_zero() {
    assert_eq!(decimal_string(0), "0");
}

#[test]
fn decimal_string_of_single_digits() {
    for d in 0..10i64 {
        assert_eq!(decimal_string(d), d.to_string());
    }
}

#[test]
fn decimal_string_of_a_timestamp() {
    assert_eq!(decimal_string(1_700_000_000), "1700000000");
    assert_eq!(decimal_string(1_696_161_600), "1696161600");
}

#[test]
fn decimal_string_of_negative_numbers() {
    assert_eq!(decimal_string(-1), "-1");
    assert_eq!(decimal_string(-10), "-10");
    assert_eq!(decimal_string(-1_700_000_000), "-1700000000");
}

#[test]
fn decimal_string_of_the_extremes() {
    assert_eq!(decimal_string(i64::MAX), "9223372036854775807");
    assert_eq!(decimal_string(i64::MIN), "-9223372036854775808");
}

#[test]
fn decimal_string_keeps_inner_zeros() {
    assert_eq!(decimal_string(10), "10");
    assert_eq!(decimal_string(1001), "1001");
    assert_eq!(decimal_string(100_000), "100000");
}

#[test]
fn decimal_string_agrees_with_the_standard_rendering() {
    let samples = [7i64, 42, 99, 100, 101, 65_535, -65_536, 123_456_789_012, -987_654_321];
    for n in samples {
        assert_eq!(decimal_string(n), n.to_string());
    }
}
