use ceraunus::decimal::Decimal;

fn dec(mantissa: i128, scale: u32) -> Decimal {
    Decimal::new(mantissa, scale).expect("valid decimal")
}

#[test]
fn decimal_rejects_parts_out_of_range() {
    assert!(Decimal::new(1, 29).is_none());
    assert!(Decimal::new(1i128 << 96, 0).is_none());
    assert!(Decimal::new(-(1i128 << 96), 0).is_none());
    assert!(Decimal::new((1i128 << 96) - 1, 28).is_some());
}

#[test]
fn decimal_addition_goes_through_the_decimal_library() {
    let sum = dec(15, 1).checked_add(&dec(25, 2)).expect("sum");
    assert_eq!(sum.mantissa(), 175);
    assert_eq!(sum.scale(), 2);
    assert_eq!(sum.to_text(), "1.75");
}

#[test]
fn decimal_subtraction_multiplication_division() {
    let diff = dec(15, 1).checked_sub(&dec(25, 2)).expect("difference");
    assert_eq!(diff.to_text(), "1.25");
    let product = dec(15, 1).checked_mul(&dec(25, 2)).expect("product");
    assert_eq!(product.to_text(), "0.375");
    let quotient = dec(3, 0).checked_div(&dec(2, 0)).expect("quotient");
    assert!(quotient.equals(&dec(15, 1)));
    let third = dec(1, 0).checked_div(&dec(3, 0)).expect("quotient");
    assert_eq!(third.to_text(), "0.3333333333333333333333333333");
    assert!(dec(3, 0).checked_div(&Decimal::zero()).is_none());
}

#[test]
fn decimal_overflow_is_reported() {
    let max = dec((1i128 << 96) - 1, 0);
    assert!(max.checked_add(&max).is_none());
    assert!(max.checked_mul(&max).is_none());
}

#[test]
fn decimal_order_is_by_value() {
    assert_eq!(dec(10, 1).compare(&dec(100, 2)), 0);
    assert_eq!(dec(999, 1).compare(&dec(1001, 1)), -1);
    assert_eq!(dec(-5, 0).compare(&dec(-50, 0)), 1);
    assert!(dec(10, 1).equals(&dec(1, 0)));
    assert!(dec(1, 3).less_than(&dec(1, 2)));
    assert!(dec(1, 2).at_most(&dec(1, 2)));
}

#[test]
fn decimal_sign_tests_and_negation() {
    assert!(Decimal::zero().is_zero());
    assert!(dec(0, 5).is_zero());
    assert!(dec(-1, 5).is_negative());
    assert!(dec(1, 5).is_positive());
    let n = dec(125, 2).neg();
    assert_eq!(n.mantissa(), -125);
    assert_eq!(n.scale(), 2);
    assert_eq!(n.to_text(), "-1.25");
}

#[test]
fn decimal_text_shows_the_scale() {
    assert_eq!(dec(1000, 1).to_text(), "100.0");
    assert_eq!(dec(1000, 2).to_text(), "10.00");
    assert_eq!(dec(-5, 3).to_text(), "-0.005");
    assert_eq!(Decimal::one().to_text(), "1");
    assert_eq!(Decimal::two().to_text(), "2");
    assert_eq!(Decimal::from_u64(42).to_text(), "42");
}

#[test]
fn decimals_compare_with_operators() {
    assert!(dec(10, 1) == dec(1, 0));
    assert!(dec(10, 1) != dec(11, 1));
    assert!(dec(999, 1) < dec(1001, 1));
    assert!(dec(-1, 0) < Decimal::zero());
    assert!(dec(5, 0) >= dec(50, 1));
    assert!(dec(5, 0) > dec(49, 1));
}
