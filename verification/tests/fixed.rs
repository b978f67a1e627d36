use worldgen::fixed::{
    accumulate, clamp_unit, divide, divide_wide, from_ratio, multiply, saturate, step_by,
    widen_product, ONE,
};

#[test]
fn one_has_thirty_fractional_bits() {
    assert_eq!(ONE, 1 << 30);
    assert_eq!(ONE, 1_073_741_824);
}

#[test]
fn division_rounds_towards_zero() {
    assert_eq!(divide(7, 2), 3);
    assert_eq!(divide(-7, 2), -3);
    assert_eq!(divide(7, -2), -3);
    assert_eq!(divide(-7, -2), 3);
    assert_eq!(divide(0, 5), 0);
    assert_eq!(divide(i64::MIN, 1), i64::MIN);
    assert_eq!(divide(i64::MIN, 2), i64::MIN / 2);
    assert_eq!(divide_wide(-9, 4), -2);
    assert_eq!(divide_wide(9, -4), -2);
}

#[test]
fn saturate_keeps_what_fits() {
    assert_eq!(saturate(5), 5);
    assert_eq!(saturate(-5), -5);
    assert_eq!(saturate(i64::MAX as i128), i64::MAX);
    assert_eq!(saturate(i64::MAX as i128 + 1), i64::MAX);
    assert_eq!(saturate(i64::MIN as i128 - 1), i64::MIN);
    assert_eq!(saturate(i128::MAX), i64::MAX);
    assert_eq!(saturate(i128::MIN), i64::MIN);
}

#[test]
fn wide_product_is_exact() {
    assert_eq!(widen_product(3, -4), -12);
    assert_eq!(widen_product(i64::MAX, i64::MAX), (i64::MAX as i128) * (i64::MAX as i128));
    assert_eq!(widen_product(i64::MIN, i64::MIN), (i64::MIN as i128) * (i64::MIN as i128));
}

#[test]
fn steps_are_counted_and_saturate() {
    assert_eq!(step_by(10, 5), 50);
    assert_eq!(step_by(-3, ONE), -3 * ONE);
    assert_eq!(step_by(0, i64::MAX), 0);
    assert_eq!(step_by(i64::MAX, 2), i64::MAX);
    assert_eq!(step_by(i64::MIN, 2), i64::MIN);
    assert_eq!(step_by(i64::MAX, -2), i64::MIN);
}

#[test]
fn products_of_fixed_point_numbers() {
    assert_eq!(multiply(ONE, ONE), ONE);
    assert_eq!(multiply(ONE / 2, ONE / 2), ONE / 4);
    assert_eq!(multiply(3 * ONE, -2 * ONE), -6 * ONE);
    // -1.5 units of the last place round towards zero
    assert_eq!(multiply(-3, ONE / 2), -1);
    assert_eq!(multiply(3, ONE / 2), 1);
    assert_eq!(multiply(i64::MAX, 2 * ONE), i64::MAX);
    assert_eq!(multiply(i64::MIN, 2 * ONE), i64::MIN);
    assert_eq!(multiply(i64::MAX, 0), 0);
}

#[test]
fn sums_saturate() {
    assert_eq!(accumulate(1, 2), 3);
    assert_eq!(accumulate(i64::MAX, 1), i64::MAX);
    assert_eq!(accumulate(i64::MIN, -1), i64::MIN);
    assert_eq!(accumulate(i64::MAX, i64::MIN), -1);
}

#[test]
fn unit_clamp() {
    assert_eq!(clamp_unit(5), 5);
    assert_eq!(clamp_unit(ONE), ONE);
    assert_eq!(clamp_unit(-ONE), -ONE);
    assert_eq!(clamp_unit(ONE + 1), ONE);
    assert_eq!(clamp_unit(-ONE - 1), -ONE);
    assert_eq!(clamp_unit(i64::MAX), ONE);
    assert_eq!(clamp_unit(i64::MIN), -ONE);
}

#[test]
fn ratios() {
    assert_eq!(from_ratio(1, 1), ONE);
    assert_eq!(from_ratio(1, 2), ONE / 2);
    assert_eq!(from_ratio(-1, 2), -ONE / 2);
    assert_eq!(from_ratio(1, -2), -ONE / 2);
    assert_eq!(from_ratio(5, 1000), 5_368_709);
    assert_eq!(from_ratio(-1, 10), -107_374_182);
    assert_eq!(from_ratio(45, 100), 483_183_820);
    assert_eq!(from_ratio(i64::MAX, 1), i64::MAX);
    assert_eq!(from_ratio(i64::MIN, 1), i64::MIN);
}
