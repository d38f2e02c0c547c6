//! Hit records: what an intersection query reports back.

use vstd::prelude::*;
use crate::fp::Fx;
use crate::material::Material;
use crate::vec3::{Point3, Vec3};

verus! {

/// One intersection of a ray with an object: the ray parameter `t` at
/// which it happened, the hit point, the surface normal there (oriented
/// against the incoming ray for two-sided surfaces), and the material of
/// the hit object. A record is transient: it is produced by one
/// intersection query and consumed by one step of the color recursion.
#[derive(Clone, Copy, Debug, PartialEq, Eq)]
pub struct HitRecord {
    pub t: Fx,
    pub point: Point3,
    pub normal: Vec3,
    pub material: Material,
}

} // verus!
