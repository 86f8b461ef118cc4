use vecbits::fbits;
use vecbits::vec2::Vec2;
use vecbits::vec3::Vec3;

fn b(v: f32) -> u32 {
    v.to_bits()
}

fn v3(x: f32, y: f32, z: f32) -> Vec3 {
    Vec3::new(b(x), b(y), b(z))
}

#[test]
fn dot_of_orthogonal_units_is_zero() {
    assert_eq!(Vec3::dot(Vec3::up(), Vec3::right()), b(0.0));
}

#[test]
fn dot_multiplies_and_sums() {
    assert_eq!(Vec3::dot(v3(1.0, 2.0, 3.0), v3(4.0, 5.0, 6.0)), b(32.0));
}

#[test]
fn scalar_mul_scales_every_component() {
    assert_eq!(v3(5.0, 10.0, 15.0).mul_scalar(b(5.0)), v3(25.0, 50.0, 75.0));
}

#[test]
fn adding_a_vec2_leaves_z_unchanged() {
    let r = v3(5.0, 5.0, 5.0).add_vec2(Vec2::new(b(1.0), b(1.0)));
    assert_eq!(r, v3(6.0, 6.0, 5.0));
    assert_eq!(r.z, b(5.0));
}

#[test]
fn subtracting_a_vec2_leaves_z_unchanged() {
    let r = v3(5.0, 5.0, 5.0).sub_vec2(Vec2::new(b(1.0), b(2.0)));
    assert_eq!(r, v3(4.0, 3.0, 5.0));
    assert_eq!(r.z, b(5.0));
}

#[test]
fn magnitude_of_one_two_two_is_three() {
    assert_eq!(v3(1.0, 2.0, 2.0).magnitude(), b(3.0));
}

#[test]
fn sum_adds_left_to_right() {
    assert_eq!(v3(1.5, 2.0, 4.0).sum(), b(7.5));
}

#[test]
fn narrowing_drops_z() {
    assert_eq!(v3(5.0, 10.0, 15.0).to_vec2(), Vec2::new(b(5.0), b(10.0)));
}

#[test]
fn vec3_max_and_min_pick_componentwise() {
    let a = v3(1.0, 5.0, -2.0);
    let c = v3(3.0, 2.0, -7.0);
    assert_eq!(Vec3::max(a, c), v3(3.0, 5.0, -2.0));
    assert_eq!(Vec3::min(a, c), v3(1.0, 2.0, -7.0));
}

#[test]
fn vec3_add_sub_mul_div_are_componentwise() {
    let a = v3(8.0, 6.0, 4.0);
    let c = v3(2.0, 3.0, 0.5);
    assert_eq!(a.add(c), v3(10.0, 9.0, 4.5));
    assert_eq!(a.sub(c), v3(6.0, 3.0, 3.5));
    assert_eq!(a.mul(c), v3(16.0, 18.0, 2.0));
    assert_eq!(a.div(c), v3(4.0, 2.0, 8.0));
    assert_eq!(a.div_scalar(b(2.0)), v3(4.0, 3.0, 2.0));
}

#[test]
fn vec3_division_by_zero_follows_ieee() {
    let r = v3(1.0, -1.0, 0.0).div(v3(0.0, 0.0, 0.0));
    assert_eq!(r.x, b(f32::INFINITY));
    assert_eq!(r.y, b(f32::NEG_INFINITY));
    assert!(fbits::is_nan_bits(r.z));
}

#[test]
fn vec3_equality_is_reflexive_without_nan() {
    let a = v3(1.0, -0.0, 2.5);
    assert!(a == a);
    assert!(v3(0.0, 0.0, -0.0) == v3(-0.0, -0.0, 0.0));
}

#[test]
fn vec3_equality_never_holds_with_nan() {
    let n = v3(0.0, f32::NAN, 0.0);
    assert!(n != n);
    assert!(n != v3(0.0, 0.0, 0.0));
}

#[test]
fn vec3_unit_constants_hold_their_directions() {
    assert_eq!(Vec3::up(), v3(0.0, 1.0, 0.0));
    assert_eq!(Vec3::down(), v3(0.0, -1.0, 0.0));
    assert_eq!(Vec3::right(), v3(1.0, 0.0, 0.0));
    assert_eq!(Vec3::left(), v3(-1.0, 0.0, 0.0));
    assert_eq!(Vec3::forward(), v3(0.0, 0.0, 1.0));
    assert_eq!(Vec3::backward(), v3(0.0, 0.0, -1.0));
}

#[test]
fn vec3_splat_repeats_the_pattern() {
    assert_eq!(Vec3::splat(b(-1.5)), v3(-1.5, -1.5, -1.5));
}

#[test]
fn comparisons_agree_with_hardware_on_samples() {
    assert!(fbits::fgt(b(2.0), b(1.5)));
    assert!(!fbits::fgt(b(1.5), b(2.0)));
    assert!(fbits::flt(b(-3.0), b(-2.0)));
    assert!(!fbits::flt(b(0.0), b(-0.0)));
    assert!(fbits::feq(b(0.0), b(-0.0)));
    assert!(!fbits::fgt(b(f32::NAN), b(1.0)));
    assert!(!fbits::flt(b(f32::NAN), b(1.0)));
    assert!(fbits::fgt(b(f32::INFINITY), b(3.4e38)));
    assert!(fbits::flt(b(f32::NEG_INFINITY), b(-3.4e38)));
    assert!(fbits::flt(b(1.0e-40), b(1.5e-40)));
}
