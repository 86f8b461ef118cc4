//! The 3-component vector type.

use vstd::prelude::*;
use crate::fbits::{
    add_bits, div_bits, f_eq, is_nan, max_by_gt, min_by_lt, mul_bits, sqrt_bits, sub_bits,
    feq, fgt, flt, soft_add, soft_div, soft_mul, soft_sqrt, soft_sub,
    NEG_ONE, ONE, POS_ZERO,
};
use crate::vec2::Vec2;

verus! {

/// A 3-component vector; each component holds the bit pattern of an IEEE-754
/// binary32 number. Values are copied, never mutated: every operation
/// returns a new vector.
#[derive(Copy, Clone, Debug)]
pub struct Vec3 {
    pub x: u32,
    pub y: u32,
    pub z: u32,
}

/// IEEE-754 equality of two vectors: all three components compare equal. No
/// NaN component ever does, and the two zero patterns do.
pub open spec fn vec3_eq(a: Vec3, b: Vec3) -> bool {
    f_eq(a.x, b.x) && f_eq(a.y, b.y) && f_eq(a.z, b.z)
}

/// The narrowing of `v` to two components: z is dropped.
pub open spec fn narrowed(v: Vec3) -> Vec2 {
    Vec2 { x: v.x, y: v.y }
}

impl Vec3 {
    /// The unit vector pointing up: `(0.0, 1.0, 0.0)`.
    pub fn up() -> (r: Vec3)
        ensures
            r == (Vec3 { x: POS_ZERO, y: ONE, z: POS_ZERO }),
    {
        Vec3 { x: POS_ZERO, y: ONE, z: POS_ZERO }
    }

    /// The unit vector pointing down: `(0.0, -1.0, 0.0)`.
    pub fn down() -> (r: Vec3)
        ensures
            r == (Vec3 { x: POS_ZERO, y: NEG_ONE, z: POS_ZERO }),
    {
        Vec3 { x: POS_ZERO, y: NEG_ONE, z: POS_ZERO }
    }

    /// The unit vector pointing right: `(1.0, 0.0, 0.0)`.
    pub fn right() -> (r: Vec3)
        ensures
            r == (Vec3 { x: ONE, y: POS_ZERO, z: POS_ZERO }),
    {
        Vec3 { x: ONE, y: POS_ZERO, z: POS_ZERO }
    }

    /// The unit vector pointing left: `(-1.0, 0.0, 0.0)`.
    pub fn left() -> (r: Vec3)
        ensures
            r == (Vec3 { x: NEG_ONE, y: POS_ZERO, z: POS_ZERO }),
    {
        Vec3 { x: NEG_ONE, y: POS_ZERO, z: POS_ZERO }
    }

    /// The unit vector pointing forward: `(0.0, 0.0, 1.0)`.
    pub fn forward() -> (r: Vec3)
        ensures
            r == (Vec3 { x: POS_ZERO, y: POS_ZERO, z: ONE }),
    {
        Vec3 { x: POS_ZERO, y: POS_ZERO, z: ONE }
    }

    /// The unit vector pointing backward: `(0.0, 0.0, -1.0)`.
    pub fn backward() -> (r: Vec3)
        ensures
            r == (Vec3 { x: POS_ZERO, y: POS_ZERO, z: NEG_ONE }),
    {
        Vec3 { x: POS_ZERO, y: POS_ZERO, z: NEG_ONE }
    }

    pub fn new(x: u32, y: u32, z: u32) -> (r: Vec3)
        ensures
            r == (Vec3 { x, y, z }),
    {
        Vec3 { x, y, z }
    }

    /// All three components set to the same pattern.
    pub fn splat(x: u32) -> (r: Vec3)
        ensures
            r == (Vec3 { x, y: x, z: x }),
    {
        Vec3 { x, y: x, z: x }
    }

    /// Component-wise maximum by the IEEE-754 `>` test: each component is the
    /// left operand exactly when it compares greater, so a NaN on the left is
    /// never kept.
    pub fn max(vec1: Vec3, vec2: Vec3) -> (r: Vec3)
        ensures
            r.x == max_by_gt(vec1.x, vec2.x),
            r.y == max_by_gt(vec1.y, vec2.y),
            r.z == max_by_gt(vec1.z, vec2.z),
    {
        let x: u32 = if fgt(vec1.x, vec2.x) {
            vec1.x
        } else {
            vec2.x
        };
        let y: u32 = if fgt(vec1.y, vec2.y) {
            vec1.y
        } else {
            vec2.y
        };
        let z: u32 = if fgt(vec1.z, vec2.z) {
            vec1.z
        } else {
            vec2.z
        };
        Vec3 { x, y, z }
    }

    /// Component-wise minimum by the IEEE-754 `<` test, with the same NaN
    /// behaviour as `max`.
    pub fn min(vec1: Vec3, vec2: Vec3) -> (r: Vec3)
        ensures
            r.x == min_by_lt(vec1.x, vec2.x),
            r.y == min_by_lt(vec1.y, vec2.y),
            r.z == min_by_lt(vec1.z, vec2.z),
    {
        let x: u32 = if flt(vec1.x, vec2.x) {
            vec1.x
        } else {
            vec2.x
        };
        let y: u32 = if flt(vec1.y, vec2.y) {
            vec1.y
        } else {
            vec2.y
        };
        let z: u32 = if flt(vec1.z, vec2.z) {
            vec1.z
        } else {
            vec2.z
        };
        Vec3 { x, y, z }
    }

    /// The dot product `a.x*b.x + a.y*b.y + a.z*b.z`, each step rounded per
    /// IEEE-754, summed left to right.
    pub fn dot(a: Vec3, b: Vec3) -> (r: u32)
        ensures
            r == add_bits(
                add_bits(mul_bits(a.x, b.x), mul_bits(a.y, b.y)),
                mul_bits(a.z, b.z),
            ),
    {
        let t: u32 = soft_add(
            soft_add(soft_mul(a.x, b.x), soft_mul(a.y, b.y)),
            soft_mul(a.z, b.z),
        );
        t
    }

    /// The IEEE-754 sum `x + y + z` of the components, summed left to right.
    pub fn sum(&self) -> (r: u32)
        ensures
            r == add_bits(add_bits(self.x, self.y), self.z),
    {
        soft_add(soft_add(self.x, self.y), self.z)
    }

    /// The same x and y with the z component dropped.
    pub fn to_vec2(&self) -> (r: Vec2)
        ensures
            r == narrowed(*self),
    {
        Vec2 { x: self.x, y: self.y }
    }

    /// The Euclidean length `sqrt(x*x + y*y + z*z)`, each step rounded per
    /// IEEE-754: NaN components give NaN, and an overflowing sum of squares
    /// gives `+infinity`.
    pub fn magnitude(&self) -> (r: u32)
        ensures
            r == sqrt_bits(
                add_bits(
                    add_bits(mul_bits(self.x, self.x), mul_bits(self.y, self.y)),
                    mul_bits(self.z, self.z),
                ),
            ),
    {
        soft_sqrt(
            soft_add(
                soft_add(soft_mul(self.x, self.x), soft_mul(self.y, self.y)),
                soft_mul(self.z, self.z),
            ),
        )
    }

    /// Component-wise sum; the right operand stands left in each sum.
    pub fn add(self, rhs: Vec3) -> (r: Vec3)
        ensures
            r.x == add_bits(rhs.x, self.x),
            r.y == add_bits(rhs.y, self.y),
            r.z == add_bits(rhs.z, self.z),
    {
        Vec3 {
            x: soft_add(rhs.x, self.x),
            y: soft_add(rhs.y, self.y),
            z: soft_add(rhs.z, self.z),
        }
    }

    /// Component-wise difference.
    pub fn sub(self, rhs: Vec3) -> (r: Vec3)
        ensures
            r.x == sub_bits(self.x, rhs.x),
            r.y == sub_bits(self.y, rhs.y),
            r.z == sub_bits(self.z, rhs.z),
    {
        Vec3 {
            x: soft_sub(self.x, rhs.x),
            y: soft_sub(self.y, rhs.y),
            z: soft_sub(self.z, rhs.z),
        }
    }

    /// Component-wise product.
    pub fn mul(self, rhs: Vec3) -> (r: Vec3)
        ensures
            r.x == mul_bits(self.x, rhs.x),
            r.y == mul_bits(self.y, rhs.y),
            r.z == mul_bits(self.z, rhs.z),
    {
        Vec3 {
            x: soft_mul(self.x, rhs.x),
            y: soft_mul(self.y, rhs.y),
            z: soft_mul(self.z, rhs.z),
        }
    }

    /// All three components multiplied by the scalar pattern `rhs`.
    pub fn mul_scalar(self, rhs: u32) -> (r: Vec3)
        ensures
            r.x == mul_bits(self.x, rhs),
            r.y == mul_bits(self.y, rhs),
            r.z == mul_bits(self.z, rhs),
    {
        Vec3 {
            x: soft_mul(self.x, rhs),
            y: soft_mul(self.y, rhs),
            z: soft_mul(self.z, rhs),
        }
    }

    /// Component-wise quotient. There is no zero check: division by a zero
    /// pattern follows IEEE-754 and yields an infinity or NaN pattern.
    pub fn div(self, rhs: Vec3) -> (r: Vec3)
        ensures
            r.x == div_bits(self.x, rhs.x),
            r.y == div_bits(self.y, rhs.y),
            r.z == div_bits(self.z, rhs.z),
    {
        Vec3 {
            x: soft_div(self.x, rhs.x),
            y: soft_div(self.y, rhs.y),
            z: soft_div(self.z, rhs.z),
        }
    }

    /// All three components divided by the scalar pattern `rhs`, with the
    /// same IEEE-754 zero behaviour as `div`.
    pub fn div_scalar(self, rhs: u32) -> (r: Vec3)
        ensures
            r.x == div_bits(self.x, rhs),
            r.y == div_bits(self.y, rhs),
            r.z == div_bits(self.z, rhs),
    {
        Vec3 {
            x: soft_div(self.x, rhs),
            y: soft_div(self.y, rhs),
            z: soft_div(self.z, rhs),
        }
    }

    /// Adds the two components of `rhs` into x and y; z passes through
    /// unchanged, bit for bit.
    pub fn add_vec2(self, rhs: Vec2) -> (r: Vec3)
        ensures
            r.x == add_bits(rhs.x, self.x),
            r.y == add_bits(rhs.y, self.y),
            r.z == self.z,
    {
        Vec3 {
            x: soft_add(rhs.x, self.x),
            y: soft_add(rhs.y, self.y),
            z: self.z,
        }
    }

    /// Subtracts the two components of `rhs` from x and y; z passes through
    /// unchanged, bit for bit.
    pub fn sub_vec2(self, rhs: Vec2) -> (r: Vec3)
        ensures
            r.x == sub_bits(self.x, rhs.x),
            r.y == sub_bits(self.y, rhs.y),
            r.z == self.z,
    {
        Vec3 {
            x: soft_sub(self.x, rhs.x),
            y: soft_sub(self.y, rhs.y),
            z: self.z,
        }
    }
}

impl PartialEq for Vec3 {
    /// IEEE-754 equality, component-wise: reflexive exactly on vectors free
    /// of NaN components.
    fn eq(&self, rhs: &Vec3) -> (r: bool) {
        feq(self.x, rhs.x) && feq(self.y, rhs.y) && feq(self.z, rhs.z)
    }
}

impl vstd::std_specs::cmp::PartialEqSpecImpl for Vec3 {
    open spec fn obeys_eq_spec() -> bool {
        true
    }

    open spec fn eq_spec(&self, rhs: &Vec3) -> bool {
        vec3_eq(*self, *rhs)
    }
}

/// Equality is reflexive on every vector free of NaN components.
pub proof fn lemma_vec3_eq_reflexive(a: Vec3)
    requires
        !is_nan(a.x),
        !is_nan(a.y),
        !is_nan(a.z),
    ensures
        vec3_eq(a, a),
{
}

/// A NaN component defeats every equality, the vector's own included.
pub proof fn lemma_vec3_nan_never_eq(a: Vec3, b: Vec3)
    requires
        is_nan(a.x) || is_nan(a.y) || is_nan(a.z),
    ensures
        !vec3_eq(a, b),
        !vec3_eq(b, a),
{
}

} // verus!
