//! Scenes: an order-irrelevant collection of objects plus a background.
//!
//! The scene holds no mutable render state. Its closest-hit query scans
//! all objects and keeps the record with the smallest `t`, replacing
//! only on a strictly smaller value, so of exactly coincident surfaces
//! the earliest object in the collection wins.

use vstd::prelude::*;
use crate::color::{Color, spec_cadd, spec_cmul, spec_csub, spec_grey};
use crate::fp::{Fx, FP_ONE, fp_add, fp_sub, fp_mul};
use crate::hittable::HitRecord;
use crate::objects::{Obj, spec_closer, spec_hit_obj};
use crate::ray::Ray;

verus! {

/// The background: a vertical gradient between two colors.
#[derive(Clone, Copy, Debug)]
pub struct SkyGradient {
    pub bottom: Color,
    pub top: Color,
}

/// A gradient parameter clamped to `[0, 1]`.
pub open spec fn spec_clamp01(t: Fx) -> Fx {
    if t < 0 {
        0
    } else if t > FP_ONE {
        FP_ONE
    } else {
        t
    }
}

/// The sky color at gradient parameter `t`:
/// `bottom + (top - bottom) * t`, with `t` clamped to `[0, 1]`.
pub open spec fn spec_sky_lerp(sky: SkyGradient, t: Fx) -> Color {
    let tc = spec_clamp01(t);
    spec_cadd(sky.bottom, spec_cmul(spec_csub(sky.top, sky.bottom), spec_grey(tc)))
}

impl SkyGradient {
    /// The sky color at gradient parameter `t` (clamped to `[0, 1]`).
    pub fn lerp(&self, t: Fx) -> (c: Color)
        ensures
            c == spec_sky_lerp(*self, t),
    {
        let tc = if t < 0 {
            0
        } else if t > FP_ONE {
            FP_ONE
        } else {
            t
        };
        self.bottom.add(self.top.sub(self.bottom).mul(Color::grey(tc)))
    }
}

/// A scene: intersectable objects plus the background gradient.
#[derive(Clone, Debug)]
pub struct Scene {
    pub objects: Vec<Obj>,
    pub sky_color: SkyGradient,
}

/// The closest hit among the objects from index `i` on: the record with
/// the smallest `t`, the earliest object winning ties.
pub open spec fn spec_closest_from(
    objs: Seq<Obj>,
    r: Ray,
    t_min: Fx,
    t_max: Fx,
    i: int,
) -> Option<HitRecord>
    decreases objs.len() - i,
{
    if i < 0 || i >= objs.len() {
        None
    } else {
        spec_closer(
            spec_hit_obj(objs[i], r, t_min, t_max),
            spec_closest_from(objs, r, t_min, t_max, i + 1),
        )
    }
}

/// The closest hit of a ray in the whole scene.
pub open spec fn spec_closest_hit(objs: Seq<Obj>, r: Ray, t_min: Fx, t_max: Fx) -> Option<
    HitRecord,
> {
    spec_closest_from(objs, r, t_min, t_max, 0)
}

impl Scene {
    /// The closest hit of a ray among all objects in `(t_min, t_max]`,
    /// or `None` when nothing is hit.
    pub fn hit_closest(&self, r: &Ray, t_min: Fx, t_max: Fx) -> (res: Option<HitRecord>)
        ensures
            res == spec_closest_hit(self.objects@, *r, t_min, t_max),
    {
        let mut best: Option<HitRecord> = None;
        let mut j: usize = self.objects.len();
        while j > 0
            invariant
                j <= self.objects.len(),
                best == spec_closest_from(self.objects@, *r, t_min, t_max, j as int),
            decreases j,
        {
            j = j - 1;
            let h = self.objects[j].hit(r, t_min, t_max);
            best = match h {
                None => best,
                Some(a) => match best {
                    None => Some(a),
                    Some(b) => if b.t < a.t {
                        Some(b)
                    } else {
                        Some(a)
                    },
                },
            };
        }
        best
    }
}

} // verus!
