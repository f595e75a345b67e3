use price_feed::Decimal;

#[test]
fn format_padding_case() {
    assert_eq!(Decimal::new(5, 3).to_string(), "0.005");
}

#[test]
fn format_split_case() {
    assert_eq!(Decimal::new(12345, 2).to_string(), "123.45");
}

#[test]
fn format_exact_length_boundary() {
    assert_eq!(Decimal::new(123, 3).to_string(), "0.123");
}

#[test]
fn format_zero_value() {
    for n in 1u32..=12 {
        let expected = format!("0.{}", "0".repeat(n as usize));
        assert_eq!(Decimal::new(0, n).to_string(), expected);
    }
}

#[test]
fn format_zero_decimals_keeps_trailing_point() {
    assert_eq!(Decimal::new(12345, 0).to_string(), "12345.");
    assert_eq!(Decimal::new(0, 0).to_string(), "0.");
}

#[test]
fn format_one_digit_more_than_decimals() {
    assert_eq!(Decimal::new(1234, 3).to_string(), "1.234");
    assert_eq!(Decimal::new(1000, 3).to_string(), "1.000");
}

#[test]
fn format_price_at_nine_decimals() {
    assert_eq!(Decimal::new(2_000_000_000_123, 9).to_string(), "2000.000000123");
    assert_eq!(Decimal::new(5, 9).to_string(), "0.000000005");
}

#[test]
fn format_largest_value() {
    assert_eq!(
        Decimal::new(u128::MAX, 9).to_string(),
        "340282366920938463463374607431.768211455"
    );
    assert_eq!(
        Decimal::new(u128::MAX, 0).to_string(),
        "340282366920938463463374607431768211455."
    );
}

#[test]
fn format_scale_beyond_digit_capacity() {
    let expected = format!("0.{}7", "0".repeat(39));
    assert_eq!(Decimal::new(7, 40).to_string(), expected);
}

#[test]
fn decimal_new_keeps_fields() {
    let d = Decimal::new(42, 7);
    assert_eq!(d.value, 42);
    assert_eq!(d.decimals, 7);
}
