use payloadgen::decimal::usize_to_decimal;

#[test]
fn decimal_of_zero() {
    assert_eq!(usize_to_decimal(0), "0");
}

#[test]
fn decimal_of_single_digits() {
    assert_eq!(usize_to_decimal(7), "7");
    assert_eq!(usize_to_decimal(9), "9");
}

#[test]
fn decimal_of_round_numbers() {
    assert_eq!(usize_to_decimal(10), "10");
    assert_eq!(usize_to_decimal(500), "500");
    assert_eq!(usize_to_decimal(1000), "1000");
}

#[test]
fn decimal_of_larger_counts() {
    assert_eq!(usize_to_decimal(1_048_576), "1048576");
    assert_eq!(usize_to_decimal(1_073_741_824), "1073741824");
    assert_eq!(usize_to_decimal(usize::MAX), format!("{}", usize::MAX));
}
