//! The 2-component vector type.

use vstd::prelude::*;
use crate::fbits::{
    add_bits, div_bits, f_eq, is_nan, max_by_gt, min_by_lt, mul_bits, sqrt_bits, sub_bits,
    feq, fgt, flt, soft_add, soft_div, soft_mul, soft_sqrt, soft_sub,
    NEG_ONE, ONE, POS_ZERO,
};
use crate::vec3::Vec3;

verus! {

/// A 2-component vector; each component holds the bit pattern of an IEEE-754
/// binary32 number. Values are copied, never mutated: every operation
/// returns a new vector.
#[derive(Copy, Clone, Debug)]
pub struct Vec2 {
    pub x: u32,
    pub y: u32,
}

/// IEEE-754 equality of two vectors: both components compare equal. No NaN
/// component ever does, and the two zero patterns do.
pub open spec fn vec2_eq(a: Vec2, b: Vec2) -> bool {
    f_eq(a.x, b.x) && f_eq(a.y, b.y)
}

/// The widening of `v` to three components, with `+0.0` for z.
pub open spec fn widened(v: Vec2) -> Vec3 {
    Vec3 { x: v.x, y: v.y, z: POS_ZERO }
}

impl Vec2 {
    /// The unit vector pointing up: `(0.0, 1.0)`.
    pub fn up() -> (r: Vec2)
        ensures
            r == (Vec2 { x: POS_ZERO, y: ONE }),
    {
        Vec2 { x: POS_ZERO, y: ONE }
    }

    /// The unit vector pointing down: `(0.0, -1.0)`.
    pub fn down() -> (r: Vec2)
        ensures
            r == (Vec2 { x: POS_ZERO, y: NEG_ONE }),
    {
        Vec2 { x: POS_ZERO, y: NEG_ONE }
    }

    /// The unit vector pointing right: `(1.0, 0.0)`.
    pub fn right() -> (r: Vec2)
        ensures
            r == (Vec2 { x: ONE, y: POS_ZERO }),
    {
        Vec2 { x: ONE, y: POS_ZERO }
    }

    /// The unit vector pointing left: `(-1.0, 0.0)`.
    pub fn left() -> (r: Vec2)
        ensures
            r == (Vec2 { x: NEG_ONE, y: POS_ZERO }),
    {
        Vec2 { x: NEG_ONE, y: POS_ZERO }
    }

    pub fn new(x: u32, y: u32) -> (r: Vec2)
        ensures
            r == (Vec2 { x, y }),
    {
        Vec2 { x, y }
    }

    /// Both components set to the same pattern.
    pub fn splat(x: u32) -> (r: Vec2)
        ensures
            r == (Vec2 { x, y: x }),
    {
        Vec2 { x, y: x }
    }

    /// Component-wise maximum by the IEEE-754 `>` test: each component is the
    /// left operand exactly when it compares greater, so a NaN on the left is
    /// never kept.
    pub fn max(vec1: Vec2, vec2: Vec2) -> (r: Vec2)
        ensures
            r.x == max_by_gt(vec1.x, vec2.x),
            r.y == max_by_gt(vec1.y, vec2.y),
    {
        let x: u32 = if fgt(vec1.x, vec2.x) {
            vec1.x
        } else {
            vec2.x
        };
        let y: u32 = if fgt(vec1.y, vec2.y) {
            vec1.y
        } else {
            vec2.y
        };
        Vec2 { x, y }
    }

    /// Component-wise minimum by the IEEE-754 `<` test, with the same NaN
    /// behaviour as `max`.
    pub fn min(vec1: Vec2, vec2: Vec2) -> (r: Vec2)
        ensures
            r.x == min_by_lt(vec1.x, vec2.x),
            r.y == min_by_lt(vec1.y, vec2.y),
    {
        let x: u32 = if flt(vec1.x, vec2.x) {
            vec1.x
        } else {
            vec2.x
        };
        let y: u32 = if flt(vec1.y, vec2.y) {
            vec1.y
        } else {
            vec2.y
        };
        Vec2 { x, y }
    }

    /// The IEEE-754 sum `x + y` of the two components.
    pub fn sum(&self) -> (r: u32)
        ensures
            r == add_bits(self.x, self.y),
    {
        soft_add(self.x, self.y)
    }

    /// The same x and y with a `+0.0` third component.
    pub fn to_vec3(&self) -> (r: Vec3)
        ensures
            r == widened(*self),
    {
        Vec3 { x: self.x, y: self.y, z: POS_ZERO }
    }

    /// The Euclidean length `sqrt(x*x + y*y)`, each step rounded per
    /// IEEE-754: NaN components give NaN, and an overflowing sum of squares
    /// gives `+infinity`.
    pub fn magnitude(&self) -> (r: u32)
        ensures
            r == sqrt_bits(add_bits(mul_bits(self.x, self.x), mul_bits(self.y, self.y))),
    {
        soft_sqrt(soft_add(soft_mul(self.x, self.x), soft_mul(self.y, self.y)))
    }

    /// Component-wise product; the right operand stands left in each product.
    pub fn mul(self, rhs: Vec2) -> (r: Vec2)
        ensures
            r.x == mul_bits(rhs.x, self.x),
            r.y == mul_bits(rhs.y, self.y),
    {
        Vec2 { x: soft_mul(rhs.x, self.x), y: soft_mul(rhs.y, self.y) }
    }

    /// Both components multiplied by the scalar pattern `rhs`.
    pub fn mul_scalar(self, rhs: u32) -> (r: Vec2)
        ensures
            r.x == mul_bits(self.x, rhs),
            r.y == mul_bits(self.y, rhs),
    {
        Vec2 { x: soft_mul(self.x, rhs), y: soft_mul(self.y, rhs) }
    }

    /// Component-wise sum; the right operand stands left in each sum.
    pub fn add(self, rhs: Vec2) -> (r: Vec2)
        ensures
            r.x == add_bits(rhs.x, self.x),
            r.y == add_bits(rhs.y, self.y),
    {
        Vec2 { x: soft_add(rhs.x, self.x), y: soft_add(rhs.y, self.y) }
    }

    /// Component-wise difference.
    pub fn sub(self, rhs: Vec2) -> (r: Vec2)
        ensures
            r.x == sub_bits(self.x, rhs.x),
            r.y == sub_bits(self.y, rhs.y),
    {
        Vec2 { x: soft_sub(self.x, rhs.x), y: soft_sub(self.y, rhs.y) }
    }

    /// Component-wise quotient. There is no zero check: division by a zero
    /// pattern follows IEEE-754 and yields an infinity or NaN pattern.
    pub fn div(self, rhs: Vec2) -> (r: Vec2)
        ensures
            r.x == div_bits(self.x, rhs.x),
            r.y == div_bits(self.y, rhs.y),
    {
        Vec2 { x: soft_div(self.x, rhs.x), y: soft_div(self.y, rhs.y) }
    }

    /// Both components divided by the scalar pattern `rhs`, with the same
    /// IEEE-754 zero behaviour as `div`.
    pub fn div_scalar(self, rhs: u32) -> (r: Vec2)
        ensures
            r.x == div_bits(self.x, rhs),
            r.y == div_bits(self.y, rhs),
    {
        Vec2 { x: soft_div(self.x, rhs), y: soft_div(self.y, rhs) }
    }
}

impl PartialEq for Vec2 {
    /// IEEE-754 equality, component-wise: reflexive exactly on vectors free
    /// of NaN components.
    fn eq(&self, rhs: &Vec2) -> (r: bool) {
        feq(self.x, rhs.x) && feq(self.y, rhs.y)
    }
}

impl vstd::std_specs::cmp::PartialEqSpecImpl for Vec2 {
    open spec fn obeys_eq_spec() -> bool {
        true
    }

    open spec fn eq_spec(&self, rhs: &Vec2) -> bool {
        vec2_eq(*self, *rhs)
    }
}

/// Equality is reflexive on every vector free of NaN components.
pub proof fn lemma_vec2_eq_reflexive(a: Vec2)
    requires
        !is_nan(a.x),
        !is_nan(a.y),
    ensures
        vec2_eq(a, a),
{
}

/// A NaN component defeats every equality, the vector's own included.
pub proof fn lemma_vec2_nan_never_eq(a: Vec2, b: Vec2)
    requires
        is_nan(a.x) || is_nan(a.y),
    ensures
        !vec2_eq(a, b),
        !vec2_eq(b, a),
{
}

/// Widening to three components and dropping back returns the very same bit
/// patterns: the z component is discarded and re-zeroed on the way.
pub proof fn lemma_widen_narrow_roundtrip(v: Vec2)
    ensures
        crate::vec3::narrowed(widened(v)) == v,
{
}

/// The same round trip under IEEE-754 equality, on vectors free of NaN.
pub proof fn lemma_widen_narrow_roundtrip_eq(v: Vec2)
    requires
        !is_nan(v.x),
        !is_nan(v.y),
    ensures
        vec2_eq(crate::vec3::narrowed(widened(v)), v),
{
}

} // verus!
