//! Vector math over IEEE-754 binary32 values carried as raw bit patterns.
//!
//! The two value types, [`vec2::Vec2`] and [`vec3::Vec3`], hold each component
//! as the 32 bits of an IEEE-754 single-precision number. Comparisons,
//! min/max, equality and the conversions between the two widths are verified
//! against the exact integer model in [`fbits`]; the rounding arithmetic is
//! delegated to software floating-point crates behind trusted wrappers.

pub mod fbits;
pub mod vec2;
pub mod vec3;
