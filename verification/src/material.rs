//! Materials: how a hit produces (or absorbs) an outgoing ray.
//!
//! A material either scatters — returning an attenuation color and a new
//! ray whose origin is the hit point — or absorbs the ray. An optional
//! emission color adds light at the hit independently of scattering.
//! Scattering is a pure function of the material, the incoming ray, the
//! hit record and the sampler state, so each variant's behaviour is
//! pinned to a spec-level mirror.

use vstd::prelude::*;
use crate::color::Color;
use crate::fp::{Fx, FP_ONE, fp_add, fp_sub, spec_fp_add, spec_fp_sub};
use crate::hittable::HitRecord;
use crate::ray::Ray;
use crate::sampler::{Sampler, spec_rng_step, spec_rng_unit};
use crate::vec3::{Point3, Vec3, spec_vadd, spec_vnormalized, spec_vscale, spec_vsub, spec_vdot};

verus! {

/// How a surface reflects light: diffusely, as a mirror, or not at all.
/// Scattering variants carry their attenuation color.
#[derive(Clone, Copy, Debug, PartialEq, Eq)]
pub enum Surface {
    Diffuse(Color),
    Mirror(Color),
    Absorb,
}

/// A material: a surface reflectance model plus optional emitted light.
#[derive(Clone, Copy, Debug, PartialEq, Eq)]
pub struct Material {
    pub surface: Surface,
    pub emission: Option<Color>,
}

/// Map a deviate in `[0, 1)` to a span value in `[-1, 1)`.
pub open spec fn spec_span(u: Fx) -> Fx {
    spec_fp_sub(spec_fp_add(u, u), FP_ONE)
}

/// A pseudo-random direction: three deviates mapped to `[-1, 1)` and
/// normalized (the zero vector stays zero). Returns the direction and
/// the sampler state after the three draws.
pub open spec fn spec_rand_dir(s: u64) -> (Vec3, u64) {
    let u1 = spec_rng_unit(s);
    let s1 = spec_rng_step(s);
    let u2 = spec_rng_unit(s1);
    let s2 = spec_rng_step(s1);
    let u3 = spec_rng_unit(s2);
    let s3 = spec_rng_step(s2);
    (spec_vnormalized(Vec3 { x: spec_span(u1), y: spec_span(u2), z: spec_span(u3) }), s3)
}

/// Mirror reflection of `d` about the normal `n`: `d - 2 (d . n) n`.
pub open spec fn spec_reflect(d: Vec3, n: Vec3) -> Vec3 {
    let dn = spec_vdot(d, n);
    spec_vsub(d, spec_vscale(n, spec_fp_add(dn, dn)))
}

/// What a material does with a hit: `None` means the ray is absorbed;
/// otherwise the attenuation color and the scattered ray, whose origin
/// is the hit point. A diffuse surface scatters toward the normal plus a
/// pseudo-random direction (three draws); a mirror reflects the incoming
/// direction and draws nothing. The second component is the sampler
/// state after the scatter.
pub open spec fn spec_scatter(
    m: Material,
    incoming: Ray,
    hit_point: Point3,
    normal: Vec3,
    s: u64,
) -> (Option<(Color, Ray)>, u64) {
    match m.surface {
        Surface::Absorb => (None, s),
        Surface::Diffuse(albedo) => {
            let (rv, s3) = spec_rand_dir(s);
            let dir = spec_vadd(normal, rv);
            (Some((albedo, Ray { origin: hit_point, direction: dir })), s3)
        },
        Surface::Mirror(albedo) => {
            let dir = spec_reflect(incoming.direction, normal);
            (Some((albedo, Ray { origin: hit_point, direction: dir })), s)
        },
    }
}

/// Map a deviate in `[0, 1)` to a span value in `[-1, 1)`.
fn span(u: Fx) -> (r: Fx)
    ensures
        r == spec_span(u),
{
    fp_sub(fp_add(u, u), FP_ONE)
}

/// Draw a pseudo-random direction from the sampler.
fn rand_dir(rng: &mut Sampler) -> (r: Vec3)
    ensures
        (r, final(rng).state) == spec_rand_dir(old(rng).state),
{
    let u1 = rng.next_unit();
    let u2 = rng.next_unit();
    let u3 = rng.next_unit();
    Vec3 { x: span(u1), y: span(u2), z: span(u3) }.normalized()
}

impl Material {
    /// A material with no emission.
    pub fn plain(surface: Surface) -> (m: Material)
        ensures
            m == (Material { surface, emission: None }),
    {
        Material { surface, emission: None }
    }

    /// A material that also emits light.
    pub fn emissive(surface: Surface, emission: Color) -> (m: Material)
        ensures
            m == (Material { surface, emission: Some(emission) }),
    {
        Material { surface, emission: Some(emission) }
    }

    /// Scatter the incoming ray at a hit: `None` means absorbed;
    /// otherwise the attenuation color and the outgoing ray.
    pub fn scatter(&self, incoming: &Ray, hit: &HitRecord, rng: &mut Sampler) -> (r: Option<
        (Color, Ray),
    >)
        ensures
            (r, final(rng).state) == spec_scatter(
                *self,
                *incoming,
                hit.point,
                hit.normal,
                old(rng).state,
            ),
    {
        match self.surface {
            Surface::Absorb => None,
            Surface::Diffuse(albedo) => {
                let rv = rand_dir(rng);
                let dir = hit.normal.add(rv);
                Some((albedo, Ray { origin: hit.point, direction: dir }))
            },
            Surface::Mirror(albedo) => {
                let dn = incoming.direction.dot(hit.normal);
                let dir = incoming.direction.sub(hit.normal.scalar(fp_add(dn, dn)));
                Some((albedo, Ray { origin: hit.point, direction: dir }))
            },
        }
    }
}

} // verus!
