//! Three-component vectors over fixed-point scalars.
//!
//! Each operation returns exactly the value of its spec-level mirror, so
//! geometry built from these vectors is pinned down value by value.

use vstd::prelude::*;
use crate::fp::{
    Fx, fp_add, fp_sub, fp_neg, fp_mul, fp_div, fp_sqrt, spec_fp_add, spec_fp_sub, spec_fp_neg,
    spec_fp_mul, spec_fp_div, spec_fp_sqrt,
};

verus! {

/// A point or direction in space, with fixed-point components.
#[derive(Clone, Copy, Debug, PartialEq, Eq, Structural)]
pub struct Vec3 {
    pub x: Fx,
    pub y: Fx,
    pub z: Fx,
}

/// Componentwise vector sum.
pub open spec fn spec_vadd(a: Vec3, b: Vec3) -> Vec3 {
    Vec3 { x: spec_fp_add(a.x, b.x), y: spec_fp_add(a.y, b.y), z: spec_fp_add(a.z, b.z) }
}

/// Componentwise vector difference.
pub open spec fn spec_vsub(a: Vec3, b: Vec3) -> Vec3 {
    Vec3 { x: spec_fp_sub(a.x, b.x), y: spec_fp_sub(a.y, b.y), z: spec_fp_sub(a.z, b.z) }
}

/// A vector scaled by a fixed-point factor.
pub open spec fn spec_vscale(a: Vec3, k: Fx) -> Vec3 {
    Vec3 { x: spec_fp_mul(a.x, k), y: spec_fp_mul(a.y, k), z: spec_fp_mul(a.z, k) }
}

/// The dot product of two vectors.
pub open spec fn spec_vdot(a: Vec3, b: Vec3) -> Fx {
    spec_fp_add(
        spec_fp_add(spec_fp_mul(a.x, b.x), spec_fp_mul(a.y, b.y)),
        spec_fp_mul(a.z, b.z),
    )
}

/// The cross product of two vectors.
pub open spec fn spec_vcross(a: Vec3, b: Vec3) -> Vec3 {
    Vec3 {
        x: spec_fp_sub(spec_fp_mul(a.y, b.z), spec_fp_mul(a.z, b.y)),
        y: spec_fp_sub(spec_fp_mul(a.z, b.x), spec_fp_mul(a.x, b.z)),
        z: spec_fp_sub(spec_fp_mul(a.x, b.y), spec_fp_mul(a.y, b.x)),
    }
}

/// The length of a vector (the square root of its dot product with itself).
pub open spec fn spec_vlength(a: Vec3) -> Fx {
    spec_fp_sqrt(spec_vdot(a, a))
}

/// The vector divided by its own length; the zero vector stays zero
/// (a zero divisor yields zero components).
pub open spec fn spec_vnormalized(a: Vec3) -> Vec3 {
    let len = spec_vlength(a);
    Vec3 { x: spec_fp_div(a.x, len), y: spec_fp_div(a.y, len), z: spec_fp_div(a.z, len) }
}

/// The componentwise negation of a vector.
pub open spec fn spec_vneg(a: Vec3) -> Vec3 {
    Vec3 { x: spec_fp_neg(a.x), y: spec_fp_neg(a.y), z: spec_fp_neg(a.z) }
}

/// The zero vector.
pub open spec fn spec_vzero() -> Vec3 {
    Vec3 { x: 0, y: 0, z: 0 }
}

impl Vec3 {
    /// Build a vector from its components.
    pub fn new(x: Fx, y: Fx, z: Fx) -> (r: Vec3)
        ensures
            r == (Vec3 { x, y, z }),
    {
        Vec3 { x, y, z }
    }

    /// The zero vector.
    pub fn zero() -> (r: Vec3)
        ensures
            r == spec_vzero(),
    {
        Vec3 { x: 0, y: 0, z: 0 }
    }

    /// Componentwise sum.
    pub fn add(self, o: Vec3) -> (r: Vec3)
        ensures
            r == spec_vadd(self, o),
    {
        Vec3 { x: fp_add(self.x, o.x), y: fp_add(self.y, o.y), z: fp_add(self.z, o.z) }
    }

    /// Componentwise difference.
    pub fn sub(self, o: Vec3) -> (r: Vec3)
        ensures
            r == spec_vsub(self, o),
    {
        Vec3 { x: fp_sub(self.x, o.x), y: fp_sub(self.y, o.y), z: fp_sub(self.z, o.z) }
    }

    /// Scale by a fixed-point factor.
    pub fn scalar(self, k: Fx) -> (r: Vec3)
        ensures
            r == spec_vscale(self, k),
    {
        Vec3 { x: fp_mul(self.x, k), y: fp_mul(self.y, k), z: fp_mul(self.z, k) }
    }

    /// Componentwise negation.
    pub fn neg(self) -> (r: Vec3)
        ensures
            r == spec_vneg(self),
    {
        Vec3 { x: fp_neg(self.x), y: fp_neg(self.y), z: fp_neg(self.z) }
    }

    /// Dot product.
    pub fn dot(self, o: Vec3) -> (r: Fx)
        ensures
            r == spec_vdot(self, o),
    {
        fp_add(fp_add(fp_mul(self.x, o.x), fp_mul(self.y, o.y)), fp_mul(self.z, o.z))
    }

    /// Cross product.
    pub fn cross(self, o: Vec3) -> (r: Vec3)
        ensures
            r == spec_vcross(self, o),
    {
        Vec3 {
            x: fp_sub(fp_mul(self.y, o.z), fp_mul(self.z, o.y)),
            y: fp_sub(fp_mul(self.z, o.x), fp_mul(self.x, o.z)),
            z: fp_sub(fp_mul(self.x, o.y), fp_mul(self.y, o.x)),
        }
    }

    /// Vector length.
    pub fn length(self) -> (r: Fx)
        ensures
            r == spec_vlength(self),
    {
        fp_sqrt(self.dot(self))
    }

    /// The vector divided by its own length; the zero vector stays zero.
    pub fn normalized(self) -> (r: Vec3)
        ensures
            r == spec_vnormalized(self),
    {
        let len = self.length();
        Vec3 { x: fp_div(self.x, len), y: fp_div(self.y, len), z: fp_div(self.z, len) }
    }
}

/// A point in space is a vector from the world origin.
pub type Point3 = Vec3;

} // verus!
