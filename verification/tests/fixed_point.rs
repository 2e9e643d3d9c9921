use motion_core::fixed::{
    clamp_symmetric, fx_div, fx_mul, isqrt, narrow, norm, quot_wide, sat_add, sat_neg, sat_sub,
    ONE,
};

#[test]
fn one_is_a_million() {
    assert_eq!(ONE, 1_000_000);
}

#[test]
fn narrow_keeps_values_in_range() {
    assert_eq!(narrow(0), 0);
    assert_eq!(narrow(-42), -42);
    assert_eq!(narrow(i64::MAX as i128), i64::MAX);
    assert_eq!(narrow(i64::MIN as i128), i64::MIN);
}

#[test]
fn narrow_saturates_out_of_range() {
    assert_eq!(narrow(i64::MAX as i128 + 1), i64::MAX);
    assert_eq!(narrow(i64::MIN as i128 - 1), i64::MIN);
    assert_eq!(narrow(i128::MAX), i64::MAX);
    assert_eq!(narrow(i128::MIN), i64::MIN);
}

#[test]
fn quot_wide_rounds_toward_zero() {
    assert_eq!(quot_wide(7, 2), 3);
    assert_eq!(quot_wide(-7, 2), -3);
    assert_eq!(quot_wide(7, -2), -3);
    assert_eq!(quot_wide(-7, -2), 3);
    assert_eq!(quot_wide(0, -5), 0);
    assert_eq!(quot_wide(6, 3), 2);
    assert_eq!(quot_wide(-6, 3), -2);
}

#[test]
fn fx_mul_exact_products() {
    assert_eq!(fx_mul(2 * ONE, 3 * ONE), 6 * ONE);
    assert_eq!(fx_mul(-2 * ONE, 3 * ONE), -6 * ONE);
    assert_eq!(fx_mul(500_000, 500_000), 250_000);
    assert_eq!(fx_mul(ONE, 123_456), 123_456);
    assert_eq!(fx_mul(0, i64::MAX), 0);
}

#[test]
fn fx_mul_rounds_toward_zero() {
    assert_eq!(fx_mul(1_500_000, 1), 1);
    assert_eq!(fx_mul(1_500_000, -1), -1);
    assert_eq!(fx_mul(999_999, 1), 0);
    assert_eq!(fx_mul(-999_999, 1), 0);
}

#[test]
fn fx_mul_saturates() {
    assert_eq!(fx_mul(i64::MAX, i64::MAX), i64::MAX);
    assert_eq!(fx_mul(i64::MIN, i64::MAX), i64::MIN);
    assert_eq!(fx_mul(i64::MIN, ONE), i64::MIN);
    assert_eq!(fx_mul(i64::MIN, -ONE), i64::MAX);
}

#[test]
fn fx_div_exact_quotients() {
    assert_eq!(fx_div(6 * ONE, 3 * ONE), 2 * ONE);
    assert_eq!(fx_div(ONE, 4 * ONE), 250_000);
    assert_eq!(fx_div(-ONE, 4 * ONE), -250_000);
    assert_eq!(fx_div(ONE, -4 * ONE), -250_000);
    assert_eq!(fx_div(0, 7), 0);
}

#[test]
fn fx_div_rounds_toward_zero() {
    assert_eq!(fx_div(ONE, 3 * ONE), 333_333);
    assert_eq!(fx_div(-ONE, 3 * ONE), -333_333);
    assert_eq!(fx_div(1, -3), -333_333);
    assert_eq!(fx_div(2, 3), 666_666);
}

#[test]
fn fx_div_saturates() {
    assert_eq!(fx_div(i64::MAX, 1), i64::MAX);
    assert_eq!(fx_div(i64::MIN, 1), i64::MIN);
    assert_eq!(fx_div(i64::MIN, -1), i64::MAX);
}

#[test]
fn saturating_sums() {
    assert_eq!(sat_add(1, 2), 3);
    assert_eq!(sat_add(i64::MAX, 1), i64::MAX);
    assert_eq!(sat_add(i64::MIN, -1), i64::MIN);
    assert_eq!(sat_sub(1, 2), -1);
    assert_eq!(sat_sub(i64::MIN, 1), i64::MIN);
    assert_eq!(sat_sub(i64::MAX, -1), i64::MAX);
    assert_eq!(sat_sub(0, i64::MIN), i64::MAX);
}

#[test]
fn saturating_negation() {
    assert_eq!(sat_neg(5), -5);
    assert_eq!(sat_neg(-5), 5);
    assert_eq!(sat_neg(0), 0);
    assert_eq!(sat_neg(i64::MIN), i64::MAX);
    assert_eq!(sat_neg(i64::MAX), -i64::MAX);
}

#[test]
fn clamp_symmetric_holds_within_limit() {
    assert_eq!(clamp_symmetric(5, 3), 3);
    assert_eq!(clamp_symmetric(-5, 3), -3);
    assert_eq!(clamp_symmetric(2, 3), 2);
    assert_eq!(clamp_symmetric(-3, 3), -3);
    assert_eq!(clamp_symmetric(7, 0), 0);
    assert_eq!(clamp_symmetric(i64::MIN, i64::MAX), -i64::MAX);
}

#[test]
fn isqrt_rounds_down() {
    assert_eq!(isqrt(0), 0);
    assert_eq!(isqrt(1), 1);
    assert_eq!(isqrt(3), 1);
    assert_eq!(isqrt(4), 2);
    assert_eq!(isqrt(15), 3);
    assert_eq!(isqrt(16), 4);
    assert_eq!(isqrt(17), 4);
    assert_eq!(isqrt(1_000_000_000_000), 1_000_000);
    assert_eq!(isqrt(999_999_999_999), 999_999);
}

#[test]
fn isqrt_of_the_largest_value() {
    assert_eq!(isqrt(u128::MAX), u64::MAX);
    let root = u64::MAX as u128;
    assert_eq!(isqrt(root * root), u64::MAX);
    assert_eq!(isqrt(root * root - 1), u64::MAX - 1);
}

#[test]
fn norm_of_a_right_triangle() {
    assert_eq!(norm(3 * ONE, 4 * ONE), 5 * ONE);
    assert_eq!(norm(-3 * ONE, 4 * ONE), 5 * ONE);
    assert_eq!(norm(3 * ONE, -4 * ONE), 5 * ONE);
    assert_eq!(norm(0, -7), 7);
    assert_eq!(norm(0, 0), 0);
}

#[test]
fn norm_rounds_down() {
    assert_eq!(norm(1, 1), 1);
    assert_eq!(norm(ONE, ONE), 1_414_213);
    assert_eq!(norm(2, 2), 2);
}

#[test]
fn norm_saturates() {
    assert_eq!(norm(i64::MIN, i64::MIN), i64::MAX);
    assert_eq!(norm(i64::MAX, i64::MAX), i64::MAX);
    assert_eq!(norm(i64::MIN, 0), i64::MAX);
    assert_eq!(norm(i64::MAX, 0), i64::MAX);
}
