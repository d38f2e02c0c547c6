//! Rays: an origin point and a direction vector.
//!
//! A ray is immutable once constructed; every bounce of the renderer
//! builds a new one. Directions are not required to be normalized.

use vstd::prelude::*;
use crate::fp::Fx;
use crate::vec3::{Point3, Vec3, spec_vadd, spec_vscale};

verus! {

/// A ray from `origin` along `direction`; points on it are
/// `origin + direction * t`.
#[derive(Clone, Copy, Debug, PartialEq, Eq, Structural)]
pub struct Ray {
    pub origin: Point3,
    pub direction: Vec3,
}

/// The point a ray reaches at parameter `t`.
pub open spec fn spec_ray_at(r: Ray, t: Fx) -> Point3 {
    spec_vadd(r.origin, spec_vscale(r.direction, t))
}

impl Ray {
    /// Build a ray from an origin and a direction.
    pub fn new(origin: Point3, direction: Vec3) -> (r: Ray)
        ensures
            r == (Ray { origin, direction }),
    {
        Ray { origin, direction }
    }

    /// The point the ray reaches at parameter `t`.
    pub fn at(&self, t: Fx) -> (p: Point3)
        ensures
            p == spec_ray_at(*self, t),
    {
        self.origin.add(self.direction.scalar(t))
    }
}

} // verus!
