//! IEEE-754 binary32 values, carried as their raw 32-bit patterns.
//!
//! A `u32` pattern splits into sign (bit 31), biased exponent (bits 23..31)
//! and fraction (bits 0..23). For every pattern that is not a NaN, `scaled`
//! gives the encoded value times `2^149` as an exact integer (the two
//! infinities land at `±2^277`, beyond every finite value), so the IEEE
//! comparisons `<`, `>` and `==` become plain integer comparisons of `scaled`
//! with NaN operands excluded. The rounding arithmetic itself (add, sub, mul,
//! div, sqrt) is not re-implemented here: it is delegated to software
//! floating-point crates (`rustc_apfloat`, and `ieee_apsqrt` for the square
//! root) through trusted wrappers whose results are named by uninterpreted
//! functions of the operand bits.

use vstd::prelude::*;
use vstd::arithmetic::power2::{
    pow2, lemma2_to64, lemma_pow2_adds, lemma_pow2_pos, lemma_pow2_strictly_increases,
};
use vstd::arithmetic::mul::{lemma_mul_inequality, lemma_mul_strict_inequality};
use rustc_apfloat::Float;
use rustc_apfloat::Round;
use rustc_apfloat::ieee::Single;
use ieee_apsqrt::sqrt_accurate;

verus! {

pub const SIGN_MASK: u32 = 0x8000_0000;

pub const ABS_MASK: u32 = 0x7FFF_FFFF;

pub const FRAC_MASK: u32 = 0x007F_FFFF;

/// The pattern of `+0.0`.
pub const POS_ZERO: u32 = 0x0000_0000;

/// The pattern of `-0.0`.
pub const NEG_ZERO: u32 = 0x8000_0000;

/// The pattern of `1.0`.
pub const ONE: u32 = 0x3F80_0000;

/// The pattern of `-1.0`.
pub const NEG_ONE: u32 = 0xBF80_0000;

/// The pattern of `+infinity`.
pub const POS_INF: u32 = 0x7F80_0000;

pub open spec fn sign_of(b: u32) -> bool {
    b & SIGN_MASK == SIGN_MASK
}

pub open spec fn exp_of(b: u32) -> u32 {
    (b >> 23) & 0xFF
}

pub open spec fn frac_of(b: u32) -> u32 {
    b & FRAC_MASK
}

pub open spec fn abs_of(b: u32) -> u32 {
    b & ABS_MASK
}

/// A NaN: exponent field all ones with a non-zero fraction.
pub open spec fn is_nan(b: u32) -> bool {
    exp_of(b) == 0xFF && frac_of(b) != 0
}

/// The magnitude encoded by `b`, times `2^149`, as an exact integer:
/// `frac * 2^(exp-1-23) * 2^(-126) * 2^149 = frac * 2^(exp-1)` once the
/// hidden bit is added for normal numbers. Patterns with the exponent field
/// all ones land at `2^277` and above, beyond every finite magnitude.
pub open spec fn mag_scaled(b: u32) -> int {
    if exp_of(b) == 0 {
        frac_of(b) as int
    } else {
        (frac_of(b) + 0x80_0000) * pow2((exp_of(b) - 1) as nat)
    }
}

/// The signed value encoded by `b`, times `2^149`. Meaningful for every
/// pattern that is not a NaN; both zero patterns map to `0`.
pub open spec fn scaled(b: u32) -> int {
    if sign_of(b) {
        -mag_scaled(b)
    } else {
        mag_scaled(b)
    }
}

/// IEEE-754 `<`: false on any NaN operand, otherwise the value order.
pub open spec fn f_lt(a: u32, b: u32) -> bool {
    !is_nan(a) && !is_nan(b) && scaled(a) < scaled(b)
}

/// IEEE-754 `>`: false on any NaN operand, otherwise the value order.
pub open spec fn f_gt(a: u32, b: u32) -> bool {
    !is_nan(a) && !is_nan(b) && scaled(a) > scaled(b)
}

/// IEEE-754 `==`: false on any NaN operand; `+0.0` and `-0.0` are equal.
pub open spec fn f_eq(a: u32, b: u32) -> bool {
    !is_nan(a) && !is_nan(b) && scaled(a) == scaled(b)
}

/// The operand a `>` test keeps: the left one exactly when it compares greater.
pub open spec fn max_by_gt(a: u32, b: u32) -> u32 {
    if f_gt(a, b) {
        a
    } else {
        b
    }
}

/// The operand a `<` test keeps: the left one exactly when it compares less.
pub open spec fn min_by_lt(a: u32, b: u32) -> u32 {
    if f_lt(a, b) {
        a
    } else {
        b
    }
}

/// The sign-magnitude sort key of a pattern: its magnitude bits, negated
/// under a set sign bit. For non-NaN patterns it orders exactly as `scaled`.
pub open spec fn skey(b: u32) -> int {
    if sign_of(b) {
        -(abs_of(b) as int)
    } else {
        abs_of(b) as int
    }
}

proof fn lemma_abs_decomposes(b: u32)
    ensures
        abs_of(b) == exp_of(b) * 0x80_0000 + frac_of(b),
        frac_of(b) < 0x80_0000,
        exp_of(b) < 0x100,
        abs_of(b) <= 0x7FFF_FFFF,
        sign_of(b) <==> b >= 0x8000_0000,
{
    assert((b & 0x7FFF_FFFF) == ((b >> 23) & 0xFF) * 0x80_0000 + (b & 0x007F_FFFF))
        by (bit_vector);
    assert((b & 0x007F_FFFF) < 0x80_0000) by (bit_vector);
    assert(((b >> 23) & 0xFF) < 0x100) by (bit_vector);
    assert((b & 0x7FFF_FFFF) <= 0x7FFF_FFFF) by (bit_vector);
    assert((b & 0x8000_0000 == 0x8000_0000) <==> b >= 0x8000_0000) by (bit_vector);
}

proof fn lemma_mag_mono(a: u32, b: u32)
    requires
        abs_of(a) > abs_of(b),
    ensures
        mag_scaled(a) > mag_scaled(b),
{
    lemma_abs_decomposes(a);
    lemma_abs_decomposes(b);
    lemma2_to64();
    let ea = exp_of(a) as int;
    let fa = frac_of(a) as int;
    let eb = exp_of(b) as int;
    let fb = frac_of(b) as int;
    assert(ea >= eb);
    if ea == eb {
        if ea != 0 {
            let p = pow2((ea - 1) as nat) as int;
            lemma_pow2_pos((ea - 1) as nat);
            lemma_mul_strict_inequality(fb + 0x80_0000, fa + 0x80_0000, p);
        }
    } else {
        let pa = pow2((ea - 1) as nat) as int;
        lemma_pow2_pos((ea - 1) as nat);
        lemma_mul_inequality(0x80_0000, fa + 0x80_0000, pa);
        lemma_pow2_adds(23, (ea - 1) as nat);
        assert(mag_scaled(a) >= pow2((ea + 22) as nat));
        if eb == 0 {
            if ea + 22 > 23 {
                lemma_pow2_strictly_increases(23, (ea + 22) as nat);
            }
            assert(mag_scaled(b) < pow2(23));
        } else {
            let pb = pow2((eb - 1) as nat) as int;
            lemma_pow2_pos((eb - 1) as nat);
            lemma_mul_strict_inequality(fb + 0x80_0000, 0x100_0000, pb);
            lemma_pow2_adds(24, (eb - 1) as nat);
            assert(mag_scaled(b) < pow2((eb + 23) as nat));
            if eb + 23 < ea + 22 {
                lemma_pow2_strictly_increases((eb + 23) as nat, (ea + 22) as nat);
            }
        }
    }
}

proof fn lemma_mag_nonneg(b: u32)
    ensures
        mag_scaled(b) >= 0,
        (mag_scaled(b) == 0) <==> (abs_of(b) == 0),
{
    lemma_abs_decomposes(b);
    if exp_of(b) != 0 {
        let e = exp_of(b) as int;
        let p = pow2((e - 1) as nat) as int;
        lemma_pow2_pos((e - 1) as nat);
        lemma_mul_strict_inequality(0, frac_of(b) + 0x80_0000, p);
    }
}

proof fn lemma_mag_same(a: u32, b: u32)
    requires
        abs_of(a) == abs_of(b),
    ensures
        mag_scaled(a) == mag_scaled(b),
{
    lemma_abs_decomposes(a);
    lemma_abs_decomposes(b);
    assert(exp_of(a) == exp_of(b) && frac_of(a) == frac_of(b));
}

proof fn lemma_scaled_skey(a: u32, b: u32)
    ensures
        (scaled(a) > scaled(b)) <==> (skey(a) > skey(b)),
        (scaled(a) == scaled(b)) <==> (skey(a) == skey(b)),
{
    lemma_mag_nonneg(a);
    lemma_mag_nonneg(b);
    if abs_of(a) > abs_of(b) {
        lemma_mag_mono(a, b);
    } else if abs_of(b) > abs_of(a) {
        lemma_mag_mono(b, a);
    } else {
        lemma_mag_same(a, b);
    }
}

/// True exactly on the bit patterns that encode an IEEE-754 NaN.
pub fn is_nan_bits(b: u32) -> (r: bool)
    ensures
        r == is_nan(b),
{
    ((b >> 23) & 0xFF) == 0xFF && (b & FRAC_MASK) != 0
}

fn sort_key(b: u32) -> (r: i64)
    ensures
        r as int == skey(b),
{
    proof {
        lemma_abs_decomposes(b);
    }
    let mag: i64 = (b & ABS_MASK) as i64;
    if b >= 0x8000_0000 {
        -mag
    } else {
        mag
    }
}

/// IEEE-754 `<` on two binary32 bit patterns.
pub fn flt(a: u32, b: u32) -> (r: bool)
    ensures
        r == f_lt(a, b),
{
    if is_nan_bits(a) || is_nan_bits(b) {
        false
    } else {
        proof {
            lemma_scaled_skey(a, b);
        }
        sort_key(a) < sort_key(b)
    }
}

/// IEEE-754 `>` on two binary32 bit patterns.
pub fn fgt(a: u32, b: u32) -> (r: bool)
    ensures
        r == f_gt(a, b),
{
    if is_nan_bits(a) || is_nan_bits(b) {
        false
    } else {
        proof {
            lemma_scaled_skey(a, b);
        }
        sort_key(a) > sort_key(b)
    }
}

/// IEEE-754 `==` on two binary32 bit patterns.
pub fn feq(a: u32, b: u32) -> (r: bool)
    ensures
        r == f_eq(a, b),
{
    if is_nan_bits(a) || is_nan_bits(b) {
        false
    } else {
        proof {
            lemma_scaled_skey(a, b);
        }
        sort_key(a) == sort_key(b)
    }
}

/// The bits that IEEE-754 binary32 addition (round to nearest, ties to even)
/// returns on the two operand bit patterns.
pub uninterp spec fn add_bits(a: u32, b: u32) -> u32;

/// The bits that IEEE-754 binary32 subtraction returns on the two operands.
pub uninterp spec fn sub_bits(a: u32, b: u32) -> u32;

/// The bits that IEEE-754 binary32 multiplication returns on the two operands.
pub uninterp spec fn mul_bits(a: u32, b: u32) -> u32;

/// The bits that IEEE-754 binary32 division returns on the two operands.
pub uninterp spec fn div_bits(a: u32, b: u32) -> u32;

/// The bits that IEEE-754 binary32 square root returns on the operand.
pub uninterp spec fn sqrt_bits(a: u32) -> u32;

/// Relies on `rustc_apfloat::ieee::Single::add_r`: IEEE-754 binary32 addition
/// of the operand bit patterns, round to nearest, ties to even; the result
/// depends on those bits alone.
#[verifier::external_body]
pub(crate) fn soft_add(a: u32, b: u32) -> (r: u32)
    ensures
        r == add_bits(a, b),
{
    Single::from_bits(a as u128).add_r(Single::from_bits(b as u128), Round::NearestTiesToEven).value.to_bits() as u32
}

/// Relies on `rustc_apfloat::ieee::Single::sub_r`: IEEE-754 binary32
/// subtraction of the operand bit patterns, round to nearest, ties to even;
/// the result depends on those bits alone.
#[verifier::external_body]
pub(crate) fn soft_sub(a: u32, b: u32) -> (r: u32)
    ensures
        r == sub_bits(a, b),
{
    Single::from_bits(a as u128).sub_r(Single::from_bits(b as u128), Round::NearestTiesToEven).value.to_bits() as u32
}

/// Relies on `rustc_apfloat::ieee::Single::mul_r`: IEEE-754 binary32
/// multiplication of the operand bit patterns, round to nearest, ties to
/// even; the result depends on those bits alone.
#[verifier::external_body]
pub(crate) fn soft_mul(a: u32, b: u32) -> (r: u32)
    ensures
        r == mul_bits(a, b),
{
    Single::from_bits(a as u128).mul_r(Single::from_bits(b as u128), Round::NearestTiesToEven).value.to_bits() as u32
}

/// Relies on `rustc_apfloat::ieee::Single::div_r`: IEEE-754 binary32 division
/// of the operand bit patterns, round to nearest, ties to even; the result
/// depends on those bits alone. Division by a zero pattern follows IEEE-754
/// and returns an infinity or NaN pattern, never a panic.
#[verifier::external_body]
pub(crate) fn soft_div(a: u32, b: u32) -> (r: u32)
    ensures
        r == div_bits(a, b),
{
    Single::from_bits(a as u128).div_r(Single::from_bits(b as u128), Round::NearestTiesToEven).value.to_bits() as u32
}

/// Relies on `ieee_apsqrt::sqrt_accurate`: IEEE-754 binary32 square root of
/// the operand bit pattern, round to nearest, ties to even; the result
/// depends on those bits alone. A negative operand yields a NaN pattern.
#[verifier::external_body]
pub(crate) fn soft_sqrt(a: u32) -> (r: u32)
    ensures
        r == sqrt_bits(a),
{
    sqrt_accurate(a, Round::NearestTiesToEven).0.value
}

} // verus!
