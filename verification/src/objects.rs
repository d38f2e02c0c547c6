//! Intersectable objects.
//!
//! Every primitive answers one query: `hit(ray, t_min, t_max)` returns
//! the nearest intersection with the ray whose parameter lies in the
//! open-closed window `(t_min, t_max]` (the lower bound is strict, so a
//! secondary ray does not re-hit the surface it starts on), or `None`.
//! The returned record's normal is normalized and oriented against the
//! incoming ray. Each `hit` is a pure function of the object, the ray
//! and the bounds, pinned to a spec-level mirror.

use vstd::prelude::*;
use crate::fp::{Fx, FP_ONE, fp_add, fp_sub, fp_neg, fp_mul, fp_div, fp_sqrt, spec_fp_add,
    spec_fp_sub, spec_fp_neg, spec_fp_mul, spec_fp_div, spec_fp_sqrt};
use crate::hittable::HitRecord;
use crate::material::Material;
use crate::ray::{Ray, spec_ray_at};
use crate::vec3::{Point3, Vec3, spec_vsub, spec_vdot, spec_vcross, spec_vneg, spec_vnormalized};

verus! {

/// A sphere with a center, a radius and a material.
#[derive(Clone, Copy, Debug, PartialEq, Eq)]
pub struct Sphere {
    pub center: Point3,
    pub radius: Fx,
    pub material: Material,
}

/// An infinite plane through `point` with normal `normal`.
#[derive(Clone, Copy, Debug, PartialEq, Eq)]
pub struct Plane {
    pub point: Point3,
    pub normal: Vec3,
    pub material: Material,
}

/// A triangle with three corners.
#[derive(Clone, Copy, Debug, PartialEq, Eq)]
pub struct Triangle {
    pub a: Point3,
    pub b: Point3,
    pub c: Point3,
    pub material: Material,
}

/// A bag of triangles tested as one object.
#[derive(Clone, Debug, PartialEq, Eq)]
pub struct Mesh {
    pub triangles: Vec<Triangle>,
}

/// Any intersectable object of the catalog.
#[derive(Clone, Debug, PartialEq, Eq)]
pub enum Obj {
    Sphere(Sphere),
    Plane(Plane),
    Triangle(Triangle),
    Mesh(Mesh),
}

/// Anything that can stand in a scene as an `Obj`.
pub trait ToObj {
    /// Wrap the shape as a scene object.
    fn to_obj(&self) -> Obj;
}

impl ToObj for Sphere {
    fn to_obj(&self) -> Obj {
        Obj::Sphere(*self)
    }
}

impl ToObj for Plane {
    fn to_obj(&self) -> Obj {
        Obj::Plane(*self)
    }
}

impl ToObj for Triangle {
    fn to_obj(&self) -> Obj {
        Obj::Triangle(*self)
    }
}

impl ToObj for Mesh {
    fn to_obj(&self) -> Obj {
        Obj::Mesh(self.clone())
    }
}

/// A surface normal oriented against the incoming direction: the outward
/// normal is flipped when the ray approaches from behind it.
pub open spec fn spec_orient(d: Vec3, outward: Vec3) -> Vec3 {
    if spec_vdot(d, outward) > 0 {
        spec_vneg(outward)
    } else {
        outward
    }
}

/// Where a ray hits a sphere: the quadratic in `t` is solved and the
/// nearer root in `(t_min, t_max]` is taken, then the farther one; the
/// record's normal points from the center through the hit point,
/// oriented against the ray. A non-positive discriminant or no root in
/// the window is a miss. (A degenerate sphere whose quadratic has a zero
/// leading coefficient divides by zero, which yields zero and misses.)
#[verifier::opaque]
pub open spec fn spec_hit_sphere(sp: Sphere, r: Ray, t_min: Fx, t_max: Fx) -> Option<HitRecord> {
    let oc = spec_vsub(r.origin, sp.center);
    let a = spec_vdot(r.direction, r.direction);
    let half_b = spec_vdot(oc, r.direction);
    let c = spec_fp_sub(spec_vdot(oc, oc), spec_fp_mul(sp.radius, sp.radius));
    let disc = spec_fp_sub(spec_fp_mul(half_b, half_b), spec_fp_mul(a, c));
    if disc < 0 {
        None
    } else {
        let sq = spec_fp_sqrt(disc);
        let t1 = spec_fp_div(spec_fp_sub(spec_fp_neg(half_b), sq), a);
        let t2 = spec_fp_div(spec_fp_add(spec_fp_neg(half_b), sq), a);
        let t = if t_min < t1 && t1 <= t_max {
            t1
        } else {
            t2
        };
        if t_min < t && t <= t_max {
            let point = spec_ray_at(r, t);
            let outward = spec_vnormalized(spec_vsub(point, sp.center));
            Some(
                HitRecord {
                    t,
                    point,
                    normal: spec_orient(r.direction, outward),
                    material: sp.material,
                },
            )
        } else {
            None
        }
    }
}

/// Where a ray hits a plane: `t` solves `(point - origin) . n = t (d . n)`;
/// a ray parallel to the plane misses. The record's normal is the plane
/// normal normalized and oriented against the ray.
#[verifier::opaque]
pub open spec fn spec_hit_plane(pl: Plane, r: Ray, t_min: Fx, t_max: Fx) -> Option<HitRecord> {
    let denom = spec_vdot(r.direction, pl.normal);
    if denom == 0 {
        None
    } else {
        let t = spec_fp_div(spec_vdot(spec_vsub(pl.point, r.origin), pl.normal), denom);
        if t_min < t && t <= t_max {
            let point = spec_ray_at(r, t);
            let outward = spec_vnormalized(pl.normal);
            Some(
                HitRecord {
                    t,
                    point,
                    normal: spec_orient(r.direction, outward),
                    material: pl.material,
                },
            )
        } else {
            None
        }
    }
}

/// Where a ray hits a triangle, by the determinant method: barycentric
/// coordinates `u`, `v` must lie in the triangle and `t` in the window.
/// A ray in the triangle's plane (zero determinant) misses. The record's
/// normal is the normalized edge cross product, oriented against the ray.
#[verifier::opaque]
pub open spec fn spec_hit_triangle(tr: Triangle, r: Ray, t_min: Fx, t_max: Fx) -> Option<
    HitRecord,
> {
    let e1 = spec_vsub(tr.b, tr.a);
    let e2 = spec_vsub(tr.c, tr.a);
    let pv = spec_vcross(r.direction, e2);
    let det = spec_vdot(e1, pv);
    if det == 0 {
        None
    } else {
        let inv = spec_fp_div(FP_ONE, det);
        let tv = spec_vsub(r.origin, tr.a);
        let u = spec_fp_mul(spec_vdot(tv, pv), inv);
        if u < 0 || u > FP_ONE {
            None
        } else {
            let qv = spec_vcross(tv, e1);
            let v = spec_fp_mul(spec_vdot(r.direction, qv), inv);
            if v < 0 || spec_fp_add(u, v) > FP_ONE {
                None
            } else {
                let t = spec_fp_mul(spec_vdot(e2, qv), inv);
                if t_min < t && t <= t_max {
                    let point = spec_ray_at(r, t);
                    let outward = spec_vnormalized(spec_vcross(e1, e2));
                    Some(
                        HitRecord {
                            t,
                            point,
                            normal: spec_orient(r.direction, outward),
                            material: tr.material,
                        },
                    )
                } else {
                    None
                }
            }
        }
    }
}

/// Of a candidate hit and the best hit among later objects, the one the
/// scan keeps: the candidate wins ties, since the scan runs front to
/// back and replaces only on a strictly smaller `t`.
pub open spec fn spec_closer(h: Option<HitRecord>, rest: Option<HitRecord>) -> Option<HitRecord> {
    match h {
        None => rest,
        Some(a) => match rest {
            None => Some(a),
            Some(b) => if b.t < a.t {
                Some(b)
            } else {
                Some(a)
            },
        },
    }
}

/// The closest hit among the triangles from index `i` on: the record
/// with the smallest `t`, the earliest triangle winning ties.
pub open spec fn spec_hit_mesh_from(
    ts: Seq<Triangle>,
    r: Ray,
    t_min: Fx,
    t_max: Fx,
    i: int,
) -> Option<HitRecord>
    decreases ts.len() - i,
{
    if i < 0 || i >= ts.len() {
        None
    } else {
        spec_closer(
            spec_hit_triangle(ts[i], r, t_min, t_max),
            spec_hit_mesh_from(ts, r, t_min, t_max, i + 1),
        )
    }
}

/// Where a ray hits a mesh: the closest triangle hit.
pub open spec fn spec_hit_mesh(m: Mesh, r: Ray, t_min: Fx, t_max: Fx) -> Option<HitRecord> {
    spec_hit_mesh_from(m.triangles@, r, t_min, t_max, 0)
}

/// Where a ray hits an object of any kind.
pub open spec fn spec_hit_obj(o: Obj, r: Ray, t_min: Fx, t_max: Fx) -> Option<HitRecord> {
    match o {
        Obj::Sphere(sp) => spec_hit_sphere(sp, r, t_min, t_max),
        Obj::Plane(pl) => spec_hit_plane(pl, r, t_min, t_max),
        Obj::Triangle(tr) => spec_hit_triangle(tr, r, t_min, t_max),
        Obj::Mesh(m) => spec_hit_mesh(m, r, t_min, t_max),
    }
}

/// Orient an outward normal against the incoming direction.
fn orient(d: Vec3, outward: Vec3) -> (r: Vec3)
    ensures
        r == spec_orient(d, outward),
{
    if d.dot(outward) > 0 {
        outward.neg()
    } else {
        outward
    }
}

impl Sphere {
    /// The nearest intersection in `(t_min, t_max]`, or `None`.
    pub fn hit(&self, r: &Ray, t_min: Fx, t_max: Fx) -> (res: Option<HitRecord>)
        ensures
            res == spec_hit_sphere(*self, *r, t_min, t_max),
    {
        proof {
            reveal(spec_hit_sphere);
        }
        let oc = r.origin.sub(self.center);
        let a = r.direction.dot(r.direction);
        let half_b = oc.dot(r.direction);
        let c = fp_sub(oc.dot(oc), fp_mul(self.radius, self.radius));
        let disc = fp_sub(fp_mul(half_b, half_b), fp_mul(a, c));
        if disc < 0 {
            return None;
        }
        let sq = fp_sqrt(disc);
        let t1 = fp_div(fp_sub(fp_neg(half_b), sq), a);
        let t2 = fp_div(fp_add(fp_neg(half_b), sq), a);
        let t = if t_min < t1 && t1 <= t_max {
            t1
        } else {
            t2
        };
        if t_min < t && t <= t_max {
            let point = r.at(t);
            let outward = point.sub(self.center).normalized();
            Some(HitRecord { t, point, normal: orient(r.direction, outward), material: self.material })
        } else {
            None
        }
    }
}

impl Plane {
    /// The intersection with the plane in `(t_min, t_max]`, or `None`.
    pub fn hit(&self, r: &Ray, t_min: Fx, t_max: Fx) -> (res: Option<HitRecord>)
        ensures
            res == spec_hit_plane(*self, *r, t_min, t_max),
    {
        proof {
            reveal(spec_hit_plane);
        }
        let denom = r.direction.dot(self.normal);
        if denom == 0 {
            return None;
        }
        let t = fp_div(self.point.sub(r.origin).dot(self.normal), denom);
        if t_min < t && t <= t_max {
            let point = r.at(t);
            let outward = self.normal.normalized();
            Some(HitRecord { t, point, normal: orient(r.direction, outward), material: self.material })
        } else {
            None
        }
    }
}

impl Triangle {
    /// The intersection with the triangle in `(t_min, t_max]`, or `None`.
    pub fn hit(&self, r: &Ray, t_min: Fx, t_max: Fx) -> (res: Option<HitRecord>)
        ensures
            res == spec_hit_triangle(*self, *r, t_min, t_max),
    {
        proof {
            reveal(spec_hit_triangle);
        }
        let e1 = self.b.sub(self.a);
        let e2 = self.c.sub(self.a);
        let pv = r.direction.cross(e2);
        let det = e1.dot(pv);
        if det == 0 {
            return None;
        }
        let inv = fp_div(FP_ONE, det);
        let tv = r.origin.sub(self.a);
        let u = fp_mul(tv.dot(pv), inv);
        if u < 0 || u > FP_ONE {
            return None;
        }
        let qv = tv.cross(e1);
        let v = fp_mul(r.direction.dot(qv), inv);
        if v < 0 || fp_add(u, v) > FP_ONE {
            return None;
        }
        let t = fp_mul(e2.dot(qv), inv);
        if t_min < t && t <= t_max {
            let point = r.at(t);
            let outward = e1.cross(e2).normalized();
            Some(HitRecord { t, point, normal: orient(r.direction, outward), material: self.material })
        } else {
            None
        }
    }
}

impl Mesh {
    /// The closest triangle intersection in `(t_min, t_max]`, or `None`.
    pub fn hit(&self, r: &Ray, t_min: Fx, t_max: Fx) -> (res: Option<HitRecord>)
        ensures
            res == spec_hit_mesh(*self, *r, t_min, t_max),
    {
        let mut best: Option<HitRecord> = None;
        let mut j: usize = self.triangles.len();
        while j > 0
            invariant
                j <= self.triangles.len(),
                best == spec_hit_mesh_from(self.triangles@, *r, t_min, t_max, j as int),
            decreases j,
        {
            j = j - 1;
            let h = self.triangles[j].hit(r, t_min, t_max);
            best = match h {
                None => best,
                Some(a) => match best {
                    None => Some(a),
                    Some(b) => if b.t < a.t {
                        Some(b)
                    } else {
                        Some(a)
                    },
                },
            };
        }
        best
    }
}

impl Obj {
    /// The nearest intersection in `(t_min, t_max]`, or `None`; a pure
    /// function of the object, the ray and the bounds.
    pub fn hit(&self, r: &Ray, t_min: Fx, t_max: Fx) -> (res: Option<HitRecord>)
        ensures
            res == spec_hit_obj(*self, *r, t_min, t_max),
    {
        match self {
            Obj::Sphere(sp) => sp.hit(r, t_min, t_max),
            Obj::Plane(pl) => pl.hit(r, t_min, t_max),
            Obj::Triangle(tr) => tr.hit(r, t_min, t_max),
            Obj::Mesh(m) => m.hit(r, t_min, t_max),
        }
    }
}

} // verus!
