use flightmodel::fixed::{fx_clamp, fx_mul, fx_sqrt, sqrt_u128, tdiv_i128, SCALE};

#[test]
fn multiplication_is_exact_on_millionths() {
    assert_eq!(fx_mul(500_000, 1_225_000), 612_500);
    assert_eq!(fx_mul(2_000_000, 3_000_000), 6_000_000);
    assert_eq!(fx_mul(1_000_000, 7), 7);
    assert_eq!(fx_mul(SCALE, SCALE), SCALE);
}

#[test]
fn multiplication_truncates_toward_zero() {
    assert_eq!(fx_mul(1, 1), 0);
    assert_eq!(fx_mul(-1, 1), 0);
    assert_eq!(fx_mul(999_999, 1), 0);
    assert_eq!(fx_mul(1_500_000, 1), 1);
    assert_eq!(fx_mul(-1_500_000, 1), -1);
}

#[test]
fn multiplication_respects_signs() {
    assert_eq!(fx_mul(-2_000_000, 3_000_000), -6_000_000);
    assert_eq!(fx_mul(2_000_000, -3_000_000), -6_000_000);
    assert_eq!(fx_mul(-2_000_000, -3_000_000), 6_000_000);
    assert_eq!(fx_mul(0, -3_000_000), 0);
}

#[test]
fn square_root_of_a_quarter_is_a_half() {
    assert_eq!(fx_sqrt(250_000), 500_000);
    assert_eq!(fx_sqrt(SCALE), SCALE);
    assert_eq!(fx_sqrt(0), 0);
    assert_eq!(fx_sqrt(4_000_000), 2_000_000);
}

#[test]
fn integer_square_root_is_the_floor() {
    assert_eq!(sqrt_u128(0), 0);
    assert_eq!(sqrt_u128(1), 1);
    assert_eq!(sqrt_u128(3), 1);
    assert_eq!(sqrt_u128(4), 2);
    assert_eq!(sqrt_u128(99), 9);
    assert_eq!(sqrt_u128(u64::MAX as u128 * u64::MAX as u128), u64::MAX);
}

#[test]
fn clamp_forces_into_interval() {
    assert_eq!(fx_clamp(5, 0, 10), 5);
    assert_eq!(fx_clamp(-5, 0, 10), 0);
    assert_eq!(fx_clamp(15, 0, 10), 10);
}

#[test]
fn wide_division_truncates_toward_zero() {
    assert_eq!(tdiv_i128(7, 2), 3);
    assert_eq!(tdiv_i128(-7, 2), -3);
    assert_eq!(tdiv_i128(0, 5), 0);
}
