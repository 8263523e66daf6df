use noisebench::scalar::{Scalar, UNIT};

fn s(bits: i64) -> Scalar {
    Scalar::from_raw(bits)
}

fn whole(v: i64) -> Scalar {
    Scalar::from_int(v)
}

#[test]
fn add_and_sub_exact() {
    assert_eq!(whole(2).add(whole(3)), whole(5));
    assert_eq!(whole(2).sub(whole(3)), whole(-1));
    assert_eq!(s(1).add(s(-1)), s(0));
}

#[test]
fn add_and_sub_saturate() {
    assert_eq!(s(i64::MAX).add(s(1)), s(i64::MAX));
    assert_eq!(s(i64::MIN).sub(s(1)), s(i64::MIN));
    assert_eq!(s(i64::MIN).add(s(-1)), s(i64::MIN));
}

#[test]
fn mul_exact_and_rounding() {
    // 1.5 * 2 == 3
    assert_eq!(s(3 * UNIT / 2).mul(whole(2)), whole(3));
    // Products round toward zero, on both sides of zero.
    assert_eq!(s(1).mul(s(1)), s(0));
    assert_eq!(s(-1).mul(s(1)), s(0));
    assert_eq!(s(UNIT / 2).mul(s(3)), s(1));
    assert_eq!(s(-UNIT / 2).mul(s(3)), s(-1));
}

#[test]
fn mul_saturates() {
    assert_eq!(s(i64::MAX).mul(whole(2)), s(i64::MAX));
    assert_eq!(s(i64::MAX).mul(whole(-2)), s(i64::MIN));
}

#[test]
fn div_exact() {
    assert_eq!(whole(1).div(whole(2)), s(UNIT / 2));
    assert_eq!(whole(-3).div(whole(2)), s(-3 * UNIT / 2));
    assert_eq!(whole(7).div(whole(7)), whole(1));
}

#[test]
fn div_by_zero_saturates() {
    assert_eq!(whole(5).div(whole(0)), s(i64::MAX));
    assert_eq!(whole(-5).div(whole(0)), s(i64::MIN));
    assert_eq!(whole(0).div(whole(0)), s(0));
}

#[test]
fn rem_follows_left_sign() {
    assert_eq!(whole(7).rem(whole(2)), whole(1));
    assert_eq!(whole(-7).rem(whole(2)), whole(-1));
    assert_eq!(whole(7).rem(whole(-2)), whole(1));
    assert_eq!(whole(7).rem(whole(0)), whole(0));
    // Fractional operands: 5.5 rem 2 == 1.5.
    assert_eq!(s(11 * UNIT / 2).rem(whole(2)), s(3 * UNIT / 2));
}

#[test]
fn rem_euclid_is_non_negative() {
    assert_eq!(whole(7).rem_euclid(whole(2)), whole(1));
    assert_eq!(whole(-7).rem_euclid(whole(2)), whole(1));
    assert_eq!(whole(-7).rem_euclid(whole(-2)), whole(1));
    assert_eq!(whole(-8).rem_euclid(whole(2)), whole(0));
    assert_eq!(whole(3).rem_euclid(whole(0)), whole(0));
}

#[test]
fn floor_and_ceil() {
    assert_eq!(s(3 * UNIT / 2).floor(), whole(1));
    assert_eq!(s(-3 * UNIT / 2).floor(), whole(-2));
    assert_eq!(s(3 * UNIT / 2).ceil(), whole(2));
    assert_eq!(s(-3 * UNIT / 2).ceil(), whole(-1));
    assert_eq!(whole(4).floor(), whole(4));
    assert_eq!(whole(4).ceil(), whole(4));
    assert_eq!(s(i64::MAX).ceil(), s(i64::MAX));
}

#[test]
fn abs_saturates_at_the_bottom() {
    assert_eq!(whole(-3).abs(), whole(3));
    assert_eq!(whole(3).abs(), whole(3));
    assert_eq!(s(i64::MIN).abs(), s(i64::MAX));
}

#[test]
fn min_max_clamp() {
    assert_eq!(whole(2).min(whole(5)), whole(2));
    assert_eq!(whole(2).max(whole(5)), whole(5));
    assert_eq!(whole(7).clamp_between(whole(0), whole(3)), whole(3));
    assert_eq!(whole(-7).clamp_between(whole(0), whole(3)), whole(0));
    assert_eq!(whole(2).clamp_between(whole(0), whole(3)), whole(2));
    // With inverted bounds the lower bound wins below it, the upper above.
    assert_eq!(whole(5).clamp_between(whole(3), whole(1)), whole(1));
    assert_eq!(whole(0).clamp_between(whole(3), whole(1)), whole(3));
}

#[test]
fn unit_maps() {
    // toSignedUnit(v) == v * 2 - 1, toUnsignedUnit(v) == (v + 1) / 2.
    assert_eq!(s(UNIT / 4).to_signed_unit(), s(-UNIT / 2));
    assert_eq!(s(-UNIT / 2).to_unsigned_unit(), s(UNIT / 4));
    assert_eq!(whole(0).to_unsigned_unit(), s(UNIT / 2));
    assert_eq!(whole(1).to_signed_unit(), whole(1));
}

#[test]
fn unit_maps_round_trip() {
    for bits in [0, 1, -1, UNIT, -UNIT, UNIT / 4, 12345, -987654321] {
        let v = s(bits);
        assert_eq!(v.to_signed_unit().to_unsigned_unit(), v);
    }
}

#[test]
fn pow_whole_exponents() {
    assert_eq!(whole(2).pow(whole(3)), whole(8));
    assert_eq!(whole(2).pow(whole(0)), whole(1));
    assert_eq!(whole(2).pow(whole(-1)), s(UNIT / 2));
    // 1.5^2 == 2.25
    assert_eq!(s(3 * UNIT / 2).pow(whole(2)), s(9 * UNIT / 4));
    // The exponent is truncated toward zero to a whole number.
    assert_eq!(whole(2).pow(s(2 * UNIT + UNIT / 2)), whole(4));
    assert_eq!(whole(2).pow(s(-(UNIT + UNIT / 2))), s(UNIT / 2));
}

#[test]
fn pow_large_exponent_saturates() {
    assert_eq!(whole(2).pow(whole(100)), s(i64::MAX));
    assert_eq!(whole(2).pow(whole(-100)), s(0));
    assert_eq!(whole(1).pow(whole(100)), whole(1));
}

#[test]
fn signed_pow_keeps_left_sign() {
    assert_eq!(whole(-2).signed_pow(whole(2)), whole(-4));
    assert_eq!(whole(2).signed_pow(whole(2)), whole(4));
    assert_eq!(whole(-2).signed_pow(whole(3)), whole(-8));
    assert_eq!(whole(0).signed_pow(whole(0)), whole(1));
}

#[test]
fn from_ratio_corners() {
    assert_eq!(Scalar::from_ratio(0, 5), s(0));
    assert_eq!(Scalar::from_ratio(5, 5), whole(1));
    assert_eq!(Scalar::from_ratio(1, 2), s(UNIT / 2));
    assert_eq!(Scalar::from_ratio(1, 3), s(65536 / 3));
}

#[test]
fn from_int_saturates() {
    assert_eq!(whole(i64::MAX), s(i64::MAX));
    assert_eq!(whole(1).bits, UNIT);
}
