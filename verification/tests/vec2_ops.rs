use vecbits::fbits;
use vecbits::vec2::Vec2;

fn b(v: f32) -> u32 {
    v.to_bits()
}

fn v2(x: f32, y: f32) -> Vec2 {
    Vec2::new(b(x), b(y))
}

#[test]
fn add_commutes_on_samples() {
    let a = v2(1.5, 2.25);
    let c = v2(3.5, 0.75);
    assert_eq!(a.add(c), c.add(a));
    assert_eq!(a.add(c), v2(5.0, 3.0));
}

#[test]
fn add_associates_on_samples() {
    let a = v2(1.0, 2.0);
    let c = v2(0.5, 4.0);
    let d = v2(8.0, 0.25);
    assert_eq!(a.add(c).add(d), a.add(c.add(d)));
}

#[test]
fn mul_by_one_is_identity() {
    let a = v2(3.25, -7.5);
    assert_eq!(a.mul_scalar(b(1.0)), a);
}

#[test]
fn add_zero_is_identity() {
    let a = v2(3.25, -7.5);
    assert_eq!(a.add(v2(0.0, 0.0)), a);
}

#[test]
fn widen_then_narrow_round_trips() {
    let a = v2(5.0, 10.0);
    assert_eq!(a.to_vec3().to_vec2(), a);
    assert_eq!(a.to_vec3().z, b(0.0));
}

#[test]
fn magnitude_of_three_four_is_five() {
    assert_eq!(v2(3.0, 4.0).magnitude(), b(5.0));
}

#[test]
fn magnitude_of_nan_is_nan() {
    assert!(fbits::is_nan_bits(v2(f32::NAN, 1.0).magnitude()));
}

#[test]
fn max_picks_componentwise() {
    let r = Vec2::max(v2(1.0, 5.0), v2(3.0, 2.0));
    assert_eq!(r, v2(3.0, 5.0));
}

#[test]
fn min_picks_componentwise() {
    let r = Vec2::min(v2(1.0, 5.0), v2(3.0, 2.0));
    assert_eq!(r, v2(1.0, 2.0));
}

#[test]
fn max_with_nan_keeps_right_operand() {
    let r = Vec2::max(v2(f32::NAN, 0.0), v2(1.0, 0.0));
    assert_eq!(r.x, b(1.0));
    let r2 = Vec2::max(v2(1.0, 0.0), v2(f32::NAN, 0.0));
    assert!(fbits::is_nan_bits(r2.x));
}

#[test]
fn sum_adds_the_components() {
    assert_eq!(v2(3.0, 4.5).sum(), b(7.5));
}

#[test]
fn sub_is_componentwise() {
    assert_eq!(v2(5.0, 10.0).sub(v2(1.0, 2.5)), v2(4.0, 7.5));
}

#[test]
fn mul_is_componentwise() {
    assert_eq!(v2(2.0, 3.0).mul(v2(4.0, 5.0)), v2(8.0, 15.0));
}

#[test]
fn div_is_componentwise() {
    assert_eq!(v2(10.0, 9.0).div(v2(4.0, 2.0)), v2(2.5, 4.5));
    assert_eq!(v2(10.0, 9.0).div_scalar(b(2.0)), v2(5.0, 4.5));
}

#[test]
fn one_over_zero_is_infinity() {
    let r = v2(1.0, 1.0).div(v2(0.0, 0.0));
    assert_eq!(r.x, fbits::POS_INF);
    assert_eq!(r.y, b(f32::INFINITY));
}

#[test]
fn zero_over_zero_is_nan() {
    let r = v2(0.0, 0.0).div(v2(0.0, 0.0));
    assert!(fbits::is_nan_bits(r.x));
    assert!(fbits::is_nan_bits(r.y));
}

#[test]
fn equality_is_reflexive_without_nan() {
    let a = v2(1.25, -3.5);
    assert!(a == a);
}

#[test]
fn equality_never_holds_with_nan() {
    let n = v2(f32::NAN, 0.0);
    assert!(n != n);
    assert!(n != v2(0.0, 0.0));
    assert!(v2(0.0, 0.0) != n);
}

#[test]
fn both_zero_patterns_are_equal() {
    assert!(v2(-0.0, 0.0) == v2(0.0, -0.0));
    assert!(fbits::feq(fbits::POS_ZERO, fbits::NEG_ZERO));
    assert!(fbits::feq(fbits::ONE, b(1.0)));
    assert!(fbits::feq(fbits::NEG_ONE, b(-1.0)));
}

#[test]
fn unit_constants_hold_their_directions() {
    assert_eq!(Vec2::up(), v2(0.0, 1.0));
    assert_eq!(Vec2::down(), v2(0.0, -1.0));
    assert_eq!(Vec2::right(), v2(1.0, 0.0));
    assert_eq!(Vec2::left(), v2(-1.0, 0.0));
}

#[test]
fn splat_repeats_the_pattern() {
    assert_eq!(Vec2::splat(b(2.5)), v2(2.5, 2.5));
}
