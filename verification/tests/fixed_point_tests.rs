use soul_sanctuary::fixed_point::{mul_div, to_base, to_derivative, SCALE};

#[test]
fn mul_div_rounds_down() {
    assert_eq!(mul_div(500, SCALE, 2_000_000_000), Some(250));
    assert_eq!(mul_div(500, SCALE, 3_000_000_000), Some(166));
    assert_eq!(mul_div(7, 3, 2), Some(10));
    assert_eq!(mul_div(0, u64::MAX, 1), Some(0));
    assert_eq!(mul_div(1, 1, u64::MAX), Some(0));
}

#[test]
fn mul_div_uses_a_wide_intermediate() {
    assert_eq!(mul_div(u64::MAX, u64::MAX, u64::MAX), Some(u64::MAX));
    assert_eq!(mul_div(u64::MAX, SCALE, SCALE), Some(u64::MAX));
    assert_eq!(mul_div(u64::MAX, 2, 4), Some(u64::MAX / 2));
}

#[test]
fn mul_div_fails_on_zero_divisor_and_on_overflow() {
    assert_eq!(mul_div(1, 1, 0), None);
    assert_eq!(mul_div(0, 0, 0), None);
    assert_eq!(mul_div(u64::MAX, 2, 1), None);
    assert_eq!(mul_div(u64::MAX, SCALE + 1, SCALE), None);
}

#[test]
fn scale_is_one_billion() {
    assert_eq!(SCALE, 1_000_000_000);
}

#[test]
fn conversion_at_one_to_one_keeps_the_amount() {
    assert_eq!(to_derivative(500, 1_000_000_000), Some(500));
    assert_eq!(to_base(500, 1_000_000_000), Some(500));
    assert_eq!(to_derivative(u64::MAX, SCALE), Some(u64::MAX));
    assert_eq!(to_base(u64::MAX, SCALE), Some(u64::MAX));
}

#[test]
fn conversion_at_two_to_one_halves_and_doubles() {
    assert_eq!(to_derivative(500, 2_000_000_000), Some(250));
    assert_eq!(to_derivative(501, 2_000_000_000), Some(250));
    assert_eq!(to_base(250, 2_000_000_000), Some(500));
    assert_eq!(to_base(3, 1_500_000_000), Some(4));
}

#[test]
fn conversion_reports_what_does_not_fit() {
    assert_eq!(to_derivative(5, 0), None);
    assert_eq!(to_derivative(u64::MAX, SCALE - 1), None);
    assert_eq!(to_base(u64::MAX, SCALE + 1), None);
    assert_eq!(to_base(5, 0), Some(0));
}
