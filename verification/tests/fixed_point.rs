use fluid_sim::fixed::{saturated, saturating_quotient, wide_product, Fixed, FINE_SCALE, SCALE};
use fluid_sim::root::isqrt;
use fluid_sim::vec2::Vec2;

fn fx(raw: i64) -> Fixed {
    Fixed { raw }
}

#[test]
fn whole_numbers_are_millionths() {
    assert_eq!(SCALE, 1_000_000);
    assert_eq!(FINE_SCALE, 1_000_000_000_000_000_000);
    assert_eq!(Fixed::from_int(16).raw, 16_000_000);
    assert_eq!(Fixed::from_int(-3).raw, -3_000_000);
    assert_eq!(Fixed::from_int(i32::MIN).raw, -2_147_483_648_000_000);
    assert_eq!(Fixed::zero().raw, 0);
    assert_eq!(Fixed::min_positive().raw, 1);
}

#[test]
fn sums_and_differences_saturate() {
    assert_eq!(fx(5).plus(fx(-7)).raw, -2);
    assert_eq!(fx(i64::MAX).plus(fx(1)).raw, i64::MAX);
    assert_eq!(fx(i64::MIN).plus(fx(-1)).raw, i64::MIN);
    assert_eq!(fx(5).minus(fx(7)).raw, -2);
    assert_eq!(fx(i64::MIN).minus(fx(1)).raw, i64::MIN);
    assert_eq!(fx(i64::MAX).minus(fx(-1)).raw, i64::MAX);
    assert_eq!(fx(0).minus(fx(i64::MIN)).raw, i64::MAX);
    assert_eq!(fx(12).negated().raw, -12);
    assert_eq!(fx(i64::MIN).negated().raw, i64::MAX);
}

#[test]
fn products_round_toward_zero() {
    assert_eq!(Fixed::from_int(2).times(Fixed::from_int(3)).raw, 6_000_000);
    assert_eq!(fx(1_500_000).times(fx(1)).raw, 1);
    assert_eq!(fx(-1_500_000).times(fx(1)).raw, -1);
    assert_eq!(fx(999_999).times(fx(1)).raw, 0);
    assert_eq!(fx(-999_999).times(fx(1)).raw, 0);
    assert_eq!(fx(-5_000_000).times(fx(-500_000)).raw, 2_500_000);
    assert_eq!(fx(i64::MAX).times(Fixed::from_int(2)).raw, i64::MAX);
    assert_eq!(fx(i64::MAX).times(Fixed::from_int(-2)).raw, i64::MIN);
    assert_eq!(fx(i64::MIN).times(fx(i64::MIN)).raw, i64::MAX);
}

#[test]
fn quotients_round_toward_zero() {
    assert_eq!(Fixed::from_int(-7).over(Fixed::from_int(2)).raw, -3_500_000);
    assert_eq!(fx(7).over(Fixed::from_int(2)).raw, 3);
    assert_eq!(fx(7).over(Fixed::from_int(-2)).raw, -3);
    assert_eq!(fx(-7).over(Fixed::from_int(-2)).raw, 3);
    assert_eq!(fx(1).over(fx(3)).raw, 333_333);
    assert_eq!(fx(-1).over(fx(3)).raw, -333_333);
    assert_eq!(fx(i64::MAX).over(fx(1)).raw, i64::MAX);
    assert_eq!(fx(i64::MIN).over(fx(1)).raw, i64::MIN);
}

#[test]
fn division_by_zero_saturates() {
    assert_eq!(fx(5).over(fx(0)).raw, i64::MAX);
    assert_eq!(fx(-5).over(fx(0)).raw, i64::MIN);
    assert_eq!(fx(0).over(fx(0)).raw, 0);
    assert_eq!(saturating_quotient(1, 0), i64::MAX);
    assert_eq!(saturating_quotient(-1, 0), i64::MIN);
    assert_eq!(saturating_quotient(0, 0), 0);
}

#[test]
fn fine_factors_scale_by_ten_to_the_eighteenth() {
    assert_eq!(fx(1_000_000).times_fine(FINE_SCALE).raw, 1_000_000);
    assert_eq!(fx(1_090_519_040_000_000).times_fine(22_798_214).raw, 24_861);
    assert_eq!(fx(-1_090_519_040_000_000).times_fine(22_798_214).raw, -24_861);
    assert_eq!(fx(3).times_fine(FINE_SCALE / 2).raw, 1);
    assert_eq!(fx(-3).times_fine(FINE_SCALE / 2).raw, -1);
}

#[test]
fn wide_helpers_cover_the_whole_range() {
    assert_eq!(wide_product(i64::MIN, i64::MIN), 1i128 << 126);
    assert_eq!(wide_product(i64::MIN, i64::MAX), -(1i128 << 126) + (1i128 << 63));
    assert_eq!(saturated(i128::MAX), i64::MAX);
    assert_eq!(saturated(i128::MIN), i64::MIN);
    assert_eq!(saturated(-17), -17);
    assert_eq!(saturating_quotient(i128::MIN, 1), i64::MIN);
    assert_eq!(saturating_quotient(i128::MIN, i128::MIN), 1);
    assert_eq!(saturating_quotient(i128::MAX, i128::MIN), 0);
    assert_eq!(saturating_quotient(i128::MIN, i128::MAX), -1);
    assert_eq!(saturating_quotient(-(1i128 << 63), 1), i64::MIN);
    assert_eq!(saturating_quotient(1i128 << 63, -1), i64::MIN);
    assert_eq!(saturating_quotient(1i128 << 63, 1), i64::MAX);
    assert_eq!(saturating_quotient(-9, 2), -4);
    assert_eq!(saturating_quotient(9, -2), -4);
}

#[test]
fn square_roots_round_down() {
    assert_eq!(isqrt(0), 0);
    assert_eq!(isqrt(1), 1);
    assert_eq!(isqrt(3), 1);
    assert_eq!(isqrt(4), 2);
    assert_eq!(isqrt(24), 4);
    assert_eq!(isqrt(25), 5);
    assert_eq!(isqrt(25_000_000_000_000), 5_000_000);
    assert_eq!(isqrt(u128::MAX), u64::MAX);
    assert_eq!(isqrt((u64::MAX as u128) * (u64::MAX as u128)), u64::MAX);
    assert_eq!(isqrt((u64::MAX as u128) * (u64::MAX as u128) - 1), u64::MAX - 1);
}

#[test]
fn vector_length_and_distance() {
    let v = Vec2::new(Fixed::from_int(3), Fixed::from_int(-4));
    assert_eq!(v.length().raw, 5_000_000);
    assert_eq!(Vec2::zero().length().raw, 0);
    assert_eq!(Vec2::new(fx(1), fx(0)).length().raw, 1);
    assert_eq!(Vec2::new(fx(1), fx(1)).length().raw, 1);
    assert_eq!(Vec2::new(fx(i64::MIN), fx(i64::MIN)).length().raw, i64::MAX);
    let a = Vec2::new(Fixed::from_int(400), Fixed::from_int(300));
    let b = Vec2::new(Fixed::from_int(403), Fixed::from_int(304));
    assert_eq!(a.distance_squared(b).raw, 25_000_000);
    assert_eq!(b.distance_squared(a).raw, 25_000_000);
    assert_eq!(a.distance_squared(a).raw, 0);
    assert_eq!(Vec2::new(fx(0), fx(0)).distance_squared(Vec2::new(fx(999), fx(0))).raw, 0);
    assert_eq!(
        Vec2::new(fx(i64::MIN), fx(0)).distance_squared(Vec2::new(fx(i64::MAX), fx(0))).raw,
        i64::MAX
    );
}

#[test]
fn vector_arithmetic_is_componentwise() {
    let a = Vec2::new(fx(10), fx(-20));
    let b = Vec2::new(fx(3), fx(4));
    assert_eq!(a.plus(b), Vec2::new(fx(13), fx(-16)));
    assert_eq!(a.minus(b), Vec2::new(fx(7), fx(-24)));
    assert_eq!(a.negated(), Vec2::new(fx(-10), fx(20)));
    assert_eq!(a.scaled(Fixed::from_int(2)), Vec2::new(fx(20), fx(-40)));
    assert_eq!(a.divided(Fixed::from_int(2)), Vec2::new(fx(5), fx(-10)));
    assert_eq!(a.scaled_fine(FINE_SCALE / 10), Vec2::new(fx(1), fx(-2)));
    let d = Vec2::new(Fixed::from_int(3), Fixed::from_int(4)).normalized();
    assert_eq!(d, Vec2::new(fx(600_000), fx(800_000)));
    let e = Vec2::new(Fixed::from_int(-8), Fixed::from_int(0)).normalized();
    assert_eq!(e, Vec2::new(fx(-1_000_000), fx(0)));
}
