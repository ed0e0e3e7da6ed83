use witchs_brew::numeral::decimal_string;

#[test]
fn decimal_renders_single_digits() {
    assert_eq!(decimal_string(0), "0");
    assert_eq!(decimal_string(7), "7");
    assert_eq!(decimal_string(9), "9");
}

#[test]
fn decimal_renders_multiple_digits() {
    assert_eq!(decimal_string(10), "10");
    assert_eq!(decimal_string(42), "42");
    assert_eq!(decimal_string(100), "100");
    assert_eq!(decimal_string(90210), "90210");
    assert_eq!(decimal_string(u32::MAX), "4294967295");
}
