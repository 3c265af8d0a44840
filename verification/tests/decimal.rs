use cosmwasm_anatomy::decimal::i32_to_decimal;

#[test]
fn renders_zero() {
    assert_eq!(i32_to_decimal(0), "0");
}

#[test]
fn renders_small_values() {
    assert_eq!(i32_to_decimal(7), "7");
    assert_eq!(i32_to_decimal(17), "17");
    assert_eq!(i32_to_decimal(-5), "-5");
    assert_eq!(i32_to_decimal(1000), "1000");
}

#[test]
fn renders_extremes_of_the_range() {
    assert_eq!(i32_to_decimal(i32::MAX), "2147483647");
    assert_eq!(i32_to_decimal(i32::MIN), "-2147483648");
}
