use fleet::fixed::{
    fx_abs, fx_add, fx_div, fx_half, fx_leg, fx_mul, fx_mul_add, fx_mul_sub, fx_neg, fx_sub,
    isqrt, ONE,
};

#[test]
fn one_is_a_million() {
    assert_eq!(ONE, 1_000_000);
}

#[test]
fn sums_and_differences_are_exact_in_range() {
    assert_eq!(fx_add(1_500_000, 2_250_000), 3_750_000);
    assert_eq!(fx_sub(1_500_000, 2_250_000), -750_000);
    assert_eq!(fx_neg(7), -7);
    assert_eq!(fx_abs(-7), 7);
    assert_eq!(fx_abs(7), 7);
}

#[test]
fn sums_and_differences_stick_at_the_bounds() {
    assert_eq!(fx_add(i64::MAX, 1), i64::MAX);
    assert_eq!(fx_add(i64::MIN, -1), i64::MIN);
    assert_eq!(fx_sub(i64::MIN, 1), i64::MIN);
    assert_eq!(fx_sub(i64::MAX, -1), i64::MAX);
    assert_eq!(fx_neg(i64::MIN), i64::MAX);
    assert_eq!(fx_abs(i64::MIN), i64::MAX);
}

#[test]
fn products_round_towards_zero() {
    // 1.5 * 2.5 = 3.75
    assert_eq!(fx_mul(1_500_000, 2_500_000), 3_750_000);
    // 0.000001 * 0.5 = 0.0000005, which rounds to 0 from either side
    assert_eq!(fx_mul(1, 500_000), 0);
    assert_eq!(fx_mul(-1, 500_000), 0);
    // 0.000003 * 0.5 = 0.0000015
    assert_eq!(fx_mul(3, 500_000), 1);
    assert_eq!(fx_mul(-3, 500_000), -1);
    assert_eq!(fx_mul(-2_000_000, 3_000_000), -6_000_000);
}

#[test]
fn products_stick_at_the_bounds() {
    assert_eq!(fx_mul(i64::MAX, 2_000_000), i64::MAX);
    assert_eq!(fx_mul(i64::MAX, -2_000_000), i64::MIN);
    assert_eq!(fx_mul(i64::MIN, i64::MIN), i64::MAX);
}

#[test]
fn quotients_round_towards_zero() {
    // 1 / 3 = 0.333333...
    assert_eq!(fx_div(1_000_000, 3_000_000), 333_333);
    assert_eq!(fx_div(-1_000_000, 3_000_000), -333_333);
    assert_eq!(fx_div(1_000_000, -3_000_000), -333_333);
    assert_eq!(fx_div(-1_000_000, -3_000_000), 333_333);
    // 25 / 1000 = 0.025
    assert_eq!(fx_div(25_000_000, 1_000_000_000), 25_000);
}

#[test]
fn division_by_zero_sticks_on_the_side_of_the_dividend() {
    assert_eq!(fx_div(5, 0), i64::MAX);
    assert_eq!(fx_div(-5, 0), i64::MIN);
    assert_eq!(fx_div(0, 0), 0);
}

#[test]
fn quotients_stick_at_the_bounds() {
    assert_eq!(fx_div(i64::MAX, 1), i64::MAX);
    assert_eq!(fx_div(i64::MIN, 1), i64::MIN);
    assert_eq!(fx_div(i64::MAX, -1), i64::MIN);
}

#[test]
fn halves_round_towards_zero() {
    assert_eq!(fx_half(7), 3);
    assert_eq!(fx_half(-7), -3);
    assert_eq!(fx_half(8), 4);
    assert_eq!(fx_half(i64::MIN), i64::MIN / 2);
}

#[test]
fn fused_products_round_once() {
    // (0.3 * 0.5 + 0.7 * 0.5) = 0.5 exactly; rounded one by one each product is exact too
    assert_eq!(fx_mul_add(300_000, 500_000, 700_000, 500_000), 500_000);
    // 1.5e-6 - 0.5e-6 = 1e-6: rounded once this is 1, rounded one by one it would be 1 - 0
    assert_eq!(fx_mul_sub(3, 500_000, 1, 500_000), 1);
    // 0.5e-6 + 0.5e-6 = 1e-6: rounded one by one it would be 0
    assert_eq!(fx_mul_add(1, 500_000, 1, 500_000), 1);
    assert_eq!(fx_mul_sub(1, 500_000, 3, 500_000), -1);
}

#[test]
fn fused_products_stick_at_the_bounds() {
    assert_eq!(fx_mul_add(i64::MIN, i64::MIN, i64::MIN, i64::MIN), i64::MAX);
    assert_eq!(fx_mul_sub(i64::MIN, i64::MIN, i64::MIN, i64::MAX), i64::MAX);
    assert_eq!(fx_mul_sub(i64::MIN, i64::MAX, i64::MIN, i64::MIN), i64::MIN);
}

#[test]
fn integer_square_roots_are_rounded_down() {
    assert_eq!(isqrt(0), 0);
    assert_eq!(isqrt(1), 1);
    assert_eq!(isqrt(3), 1);
    assert_eq!(isqrt(4), 2);
    assert_eq!(isqrt(99), 9);
    assert_eq!(isqrt(100), 10);
    assert_eq!(isqrt(1_000_000_000_000), 1_000_000);
    assert_eq!(isqrt(u128::MAX), u64::MAX);
}

#[test]
fn legs_of_right_triangles() {
    // 3, 4, 5
    assert_eq!(fx_leg(5_000_000, 3_000_000), 4_000_000);
    assert_eq!(fx_leg(5_000_000, -3_000_000), 4_000_000);
    assert_eq!(fx_leg(5_000_000, 5_000_000), 0);
    assert_eq!(fx_leg(5_000_000, 0), 5_000_000);
    // a leg longer than the hypotenuse leaves nothing
    assert_eq!(fx_leg(3_000_000, 5_000_000), 0);
    // sqrt(60^2 - 1^2) = 59.99166608...
    assert_eq!(fx_leg(60_000_000, 1_000_000), 59_991_666);
}
