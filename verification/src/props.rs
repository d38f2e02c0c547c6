//! Laws of the renderer, stated over its spec-level model and proved
//! once for every input they speak of.

use vstd::prelude::*;
use crate::camera::{Camera, HIT_T_MAX, HIT_T_MIN, Viewport, spec_pixel_color,
    spec_pixel_samples, spec_ray_color, spec_render, spec_render_upto, spec_sample_ray,
    spec_sky_of_ray};
use crate::color::{Color, spec_black, spec_linear_to_gamma};
use crate::fp::{Fx, FP_ONE, lemma_fp_mul_comm, lemma_fp_mul_le_unit, lemma_fp_mul_one,
    lemma_fp_mul_unit_bounded, spec_fp_abs, spec_fp_div, spec_fp_mul, spec_fp_of_int,
    spec_fp_sub};
use crate::hittable::HitRecord;
use crate::material::{Material, Surface, spec_scatter};
use crate::objects::{Obj, Triangle, spec_closer, spec_hit_mesh_from, spec_hit_obj};
use crate::ray::Ray;
use crate::sampler::{spec_rng_step};
use crate::scene::{SkyGradient, spec_clamp01, spec_closest_from, spec_closest_hit,
    spec_sky_lerp};
use crate::vec3::{Point3, spec_vdot};

verus! {

/// A ray traced with the bounce limit exhausted is black, whatever the
/// scene holds, and draws nothing from the sampler.
pub proof fn lemma_depth_zero_is_black(objs: Seq<Obj>, sky: SkyGradient, r: Ray, s: u64)
    ensures
        spec_ray_color(objs, sky, r, 0, s) == (spec_black(), s),
{
}

/// A ray that hits nothing returns the sky gradient at its normalized
/// direction — whatever the scene's objects are, as long as none of them
/// is hit — and draws nothing from the sampler.
pub proof fn lemma_miss_is_sky(objs: Seq<Obj>, sky: SkyGradient, r: Ray, depth: u8, s: u64)
    requires
        depth > 0,
        spec_closest_hit(objs, r, HIT_T_MIN, HIT_T_MAX) is None,
    ensures
        spec_ray_color(objs, sky, r, depth, s) == (spec_sky_of_ray(sky, r), s),
{
}

/// In a scene with no objects every ray misses, so every traced ray
/// returns the sky gradient at its normalized direction.
pub proof fn lemma_empty_scene_is_sky(objs: Seq<Obj>, sky: SkyGradient, r: Ray, depth: u8, s: u64)
    requires
        objs.len() == 0,
        depth > 0,
    ensures
        spec_ray_color(objs, sky, r, depth, s) == (spec_sky_of_ray(sky, r), s),
{
    assert(spec_closest_hit(objs, r, HIT_T_MIN, HIT_T_MAX) is None);
}

/// A ray whose closest hit is a fully absorbing, non-emissive material
/// is black, whatever the depth, and leaves the sampler untouched.
pub proof fn lemma_absorbed_is_black(
    objs: Seq<Obj>,
    sky: SkyGradient,
    r: Ray,
    depth: u8,
    s: u64,
    h: HitRecord,
)
    requires
        spec_closest_hit(objs, r, HIT_T_MIN, HIT_T_MAX) == Some(h),
        h.material.surface is Absorb,
        h.material.emission is None,
    ensures
        spec_ray_color(objs, sky, r, depth, s) == (spec_black(), s),
{
}

/// Closest-hit selection between two objects: when both are hit and the
/// first one's hit lies strictly nearer along the ray, the scene of the
/// two returns the first object's record — its material included.
#[verifier::rlimit(50)]
pub proof fn lemma_closest_hit_two(
    a: Obj,
    b: Obj,
    r: Ray,
    t_min: Fx,
    t_max: Fx,
    h1: HitRecord,
    h2: HitRecord,
)
    requires
        spec_hit_obj(a, r, t_min, t_max) == Some(h1),
        spec_hit_obj(b, r, t_min, t_max) == Some(h2),
        h1.t < h2.t,
    ensures
        spec_closest_hit(seq![a, b], r, t_min, t_max) == Some(h1),
{
    let objs = seq![a, b];
    assert(objs[0] == a && objs[1] == b);
    assert(spec_closest_from(objs, r, t_min, t_max, 2) is None);
    assert(spec_closest_from(objs, r, t_min, t_max, 1) == Some(h2));
    assert(spec_closest_from(objs, r, t_min, t_max, 0) == Some(h1));
}

/// The closest-hit scan from index `i` on returns `None` exactly when no
/// object from there on is hit; otherwise it returns a record that some
/// object produced, and no hit object has a record nearer along the ray.
#[verifier::rlimit(50)]
pub proof fn lemma_closest_from_is_nearest(objs: Seq<Obj>, r: Ray, t_min: Fx, t_max: Fx, i: int)
    requires
        0 <= i <= objs.len(),
    ensures
        ({
            let res = spec_closest_from(objs, r, t_min, t_max, i);
            &&& (res is None ==> forall|j: int|
                i <= j < objs.len() ==> (#[trigger] spec_hit_obj(objs[j], r, t_min, t_max))
                    is None)
            &&& (forall|j: int|
                i <= j < objs.len() ==> ((#[trigger] spec_hit_obj(objs[j], r, t_min, t_max))
                    matches Some(hj) ==> (res matches Some(hb) && hb.t <= hj.t)))
            &&& (res matches Some(hb) ==> exists|j: int|
                i <= j < objs.len() && #[trigger] spec_hit_obj(objs[j], r, t_min, t_max) == Some(
                    hb,
                ))
        }),
    decreases objs.len() - i,
{
    if i < objs.len() {
        lemma_closest_from_is_nearest(objs, r, t_min, t_max, i + 1);
        let hi = spec_hit_obj(objs[i], r, t_min, t_max);
        let rest = spec_closest_from(objs, r, t_min, t_max, i + 1);
        let res = spec_closest_from(objs, r, t_min, t_max, i);
        assert(res == spec_closer(hi, rest));
        match hi {
            Some(a) => {
                match rest {
                    Some(b) => {
                        if b.t < a.t {
                            assert(res == Some(b));
                        } else {
                            assert(res == Some(a));
                        }
                    },
                    None => {
                        assert(res == Some(a));
                    },
                }
            },
            None => {
                assert(res == rest);
            },
        }
    }
}

/// Closest-hit selection across a whole scene: a missed scene means no
/// object was hit; a returned record was produced by one of the objects,
/// and no hit object lies strictly nearer along the ray. Of exactly
/// coincident hits the scan keeps the earliest object's record.
pub proof fn lemma_closest_hit_is_nearest(objs: Seq<Obj>, r: Ray, t_min: Fx, t_max: Fx)
    ensures
        ({
            let res = spec_closest_hit(objs, r, t_min, t_max);
            &&& (res is None ==> forall|j: int|
                0 <= j < objs.len() ==> (#[trigger] spec_hit_obj(objs[j], r, t_min, t_max))
                    is None)
            &&& (forall|j: int|
                0 <= j < objs.len() ==> ((#[trigger] spec_hit_obj(objs[j], r, t_min, t_max))
                    matches Some(hj) ==> (res matches Some(hb) && hb.t <= hj.t)))
            &&& (res matches Some(hb) ==> exists|j: int|
                0 <= j < objs.len() && #[trigger] spec_hit_obj(objs[j], r, t_min, t_max) == Some(
                    hb,
                ))
        }),
{
    lemma_closest_from_is_nearest(objs, r, t_min, t_max, 0);
}

/// A render's model emits exactly `k` pixels up to index `k`.
pub proof fn lemma_render_upto_len(
    objs: Seq<Obj>,
    sky: SkyGradient,
    origin: Point3,
    vp: Viewport,
    w: u32,
    spp: usize,
    depth: u8,
    k: int,
    s0: u64,
)
    requires
        k >= 0,
    ensures
        spec_render_upto(objs, sky, origin, vp, w, spp, depth, k, s0).0.len() == k,
    decreases k,
{
    if k > 0 {
        lemma_render_upto_len(objs, sky, origin, vp, w, spp, depth, k - 1, s0);
    }
}

/// A full render emits exactly `image_width * image_height` pixels,
/// covering every coordinate pair exactly once in row-major order.
pub proof fn lemma_render_complete(
    objs: Seq<Obj>,
    sky: SkyGradient,
    cam: Camera,
    spp: usize,
    depth: u8,
)
    requires
        cam.image_width >= 1,
    ensures
        spec_render(objs, sky, cam, spp, depth).len() == cam.image_width as int
            * cam.image_height as int,
        forall|i: int|
            0 <= i < spec_render(objs, sky, cam, spp, depth).len() ==> {
                let p = #[trigger] spec_render(objs, sky, cam, spp, depth)[i];
                p.x == i % (cam.image_width as int) && p.y == i / (cam.image_width as int)
            },
{
    let total = cam.image_width as int * cam.image_height as int;
    assert(total >= 0 && total <= (cam.image_width as int) * 0x1_0000_0000) by (nonlinear_arith)
        requires
            cam.image_width as int >= 1,
            0 <= cam.image_height as int,
            (cam.image_height as int) < 0x1_0000_0000,
            total == (cam.image_width as int) * (cam.image_height as int),
    ;
    lemma_render_upto_len(
        objs,
        sky,
        cam.origin,
        spec_viewport_of(cam),
        cam.image_width,
        spp,
        depth,
        total,
        crate::camera::RENDER_SEED,
    );
    lemma_render_upto_coords(
        objs,
        sky,
        cam.origin,
        spec_viewport_of(cam),
        cam.image_width,
        spp,
        depth,
        total,
        crate::camera::RENDER_SEED,
    );
}

/// The viewport basis a camera derives (shorthand for the laws).
pub open spec fn spec_viewport_of(cam: Camera) -> Viewport {
    crate::camera::spec_viewport(cam)
}

/// Up to index `k`, pixel `i` of a render's model sits at column
/// `i % w` and row `i / w`.
#[verifier::rlimit(50)]
pub proof fn lemma_render_upto_coords(
    objs: Seq<Obj>,
    sky: SkyGradient,
    origin: Point3,
    vp: Viewport,
    w: u32,
    spp: usize,
    depth: u8,
    k: int,
    s0: u64,
)
    requires
        k >= 0,
        w >= 1,
        k <= w as int * 0x1_0000_0000,
    ensures
        forall|i: int|
            0 <= i < k ==> {
                let p = #[trigger] spec_render_upto(objs, sky, origin, vp, w, spp, depth, k, s0).0[i];
                p.x == i % (w as int) && p.y == i / (w as int)
            },
    decreases k,
{
    if k > 0 {
        lemma_render_upto_coords(objs, sky, origin, vp, w, spp, depth, k - 1, s0);
        lemma_render_upto_len(objs, sky, origin, vp, w, spp, depth, k - 1, s0);
        let pre = spec_render_upto(objs, sky, origin, vp, w, spp, depth, k - 1, s0).0;
        let cur = spec_render_upto(objs, sky, origin, vp, w, spp, depth, k, s0).0;
        vstd::arithmetic::div_mod::lemma_mod_bound(k - 1, w as int);
        vstd::arithmetic::div_mod::lemma_multiply_divide_lt(k - 1, w as int, 0x1_0000_0000);
        vstd::arithmetic::div_mod::lemma_div_pos_is_pos(k - 1, w as int);
        assert(cur[k - 1].x == (k - 1) % (w as int) && cur[k - 1].y == (k - 1) / (w as int));
        assert forall|i: int| 0 <= i < k - 1 implies {
            let p = #[trigger] cur[i];
            p.x == i % (w as int) && p.y == i / (w as int)
        } by {
            assert(cur[i] == pre[i]);
        }
    }
}

/// Every color component lies in `[0, cap]`.
pub open spec fn spec_color_within(c: Color, cap: Fx) -> bool {
    &&& 0 <= c.r <= cap
    &&& 0 <= c.g <= cap
    &&& 0 <= c.b <= cap
}

/// A passive material: it emits nothing and its attenuation components
/// lie in `[0, 1]`.
pub open spec fn spec_material_passive(m: Material) -> bool {
    &&& m.emission is None
    &&& match m.surface {
        Surface::Diffuse(a) => spec_color_within(a, FP_ONE),
        Surface::Mirror(a) => spec_color_within(a, FP_ONE),
        Surface::Absorb => true,
    }
}

/// Every material an object can hand out is passive.
pub open spec fn spec_obj_passive(o: Obj) -> bool {
    match o {
        Obj::Sphere(sp) => spec_material_passive(sp.material),
        Obj::Plane(pl) => spec_material_passive(pl.material),
        Obj::Triangle(tr) => spec_material_passive(tr.material),
        Obj::Mesh(m) => forall|j: int|
            0 <= j < m.triangles@.len() ==> spec_material_passive(
                (#[trigger] m.triangles@[j]).material,
            ),
    }
}

/// Every material in the scene is passive.
pub open spec fn spec_objs_passive(objs: Seq<Obj>) -> bool {
    forall|j: int| 0 <= j < objs.len() ==> spec_obj_passive(#[trigger] objs[j])
}

/// A hit record a mesh returns carries one of its triangles' materials.
proof fn lemma_mesh_hit_material(
    ts: Seq<Triangle>,
    r: Ray,
    t_min: Fx,
    t_max: Fx,
    i: int,
    h: HitRecord,
)
    requires
        forall|j: int|
            0 <= j < ts.len() ==> spec_material_passive((#[trigger] ts[j]).material),
        spec_hit_mesh_from(ts, r, t_min, t_max, i) == Some(h),
    ensures
        spec_material_passive(h.material),
    decreases ts.len() - i,
{
    reveal(crate::objects::spec_hit_triangle);
    if 0 <= i < ts.len() {
        let hi = crate::objects::spec_hit_triangle(ts[i], r, t_min, t_max);
        let rest = spec_hit_mesh_from(ts, r, t_min, t_max, i + 1);
        match rest {
            Some(b) => {
                if h == b {
                    lemma_mesh_hit_material(ts, r, t_min, t_max, i + 1, b);
                }
            },
            None => {
            },
        }
    }
}

/// A hit record an object returns carries one of its materials.
proof fn lemma_obj_hit_material(o: Obj, r: Ray, t_min: Fx, t_max: Fx, h: HitRecord)
    requires
        spec_obj_passive(o),
        spec_hit_obj(o, r, t_min, t_max) == Some(h),
    ensures
        spec_material_passive(h.material),
{
    reveal(crate::objects::spec_hit_sphere);
    reveal(crate::objects::spec_hit_plane);
    reveal(crate::objects::spec_hit_triangle);
    match o {
        Obj::Mesh(m) => {
            lemma_mesh_hit_material(m.triangles@, r, t_min, t_max, 0, h);
        },
        _ => {
        },
    }
}

/// The closest hit of a scene of passive materials carries a passive
/// material.
proof fn lemma_closest_hit_material(objs: Seq<Obj>, r: Ray, t_min: Fx, t_max: Fx, i: int, h: HitRecord)
    requires
        spec_objs_passive(objs),
        0 <= i,
        spec_closest_from(objs, r, t_min, t_max, i) == Some(h),
    ensures
        spec_material_passive(h.material),
    decreases objs.len() - i,
{
    if i < objs.len() {
        let hi = spec_hit_obj(objs[i], r, t_min, t_max);
        let rest = spec_closest_from(objs, r, t_min, t_max, i + 1);
        match hi {
            Some(a) => {
                if h == a {
                    lemma_obj_hit_material(objs[i], r, t_min, t_max, a);
                } else {
                    lemma_closest_hit_material(objs, r, t_min, t_max, i + 1, h);
                }
            },
            None => {
                lemma_closest_hit_material(objs, r, t_min, t_max, i + 1, h);
            },
        }
    }
}

/// Along every bounce of this ray's path, the cosine term
/// `|normal . outgoing|` of the scattered ray is at most 1, so a bounce
/// can only dim what it gathers. (A scattered direction much longer than
/// the normal — a mirror reflection of a long primary ray, say — can
/// push the term past 1, and then a bounce may brighten.)
pub open spec fn spec_decay_ok(objs: Seq<Obj>, r: Ray, depth: u8, s: u64) -> bool
    decreases depth,
{
    if depth == 0 {
        true
    } else {
        match spec_closest_hit(objs, r, HIT_T_MIN, HIT_T_MAX) {
            None => true,
            Some(h) => {
                let (sc, s2) = spec_scatter(h.material, r, h.point, h.normal, s);
                match sc {
                    None => true,
                    Some((attenuation, scattered)) => {
                        &&& spec_fp_abs(spec_vdot(h.normal, scattered.direction)) <= FP_ONE
                        &&& spec_decay_ok(objs, scattered, (depth - 1) as u8, s2)
                    },
                }
            },
        }
    }
}

/// The sky gradient never leaves the bounds of its two colors.
pub proof fn lemma_sky_lerp_within(sky: SkyGradient, t: Fx, cap: Fx)
    requires
        spec_color_within(sky.bottom, cap),
        spec_color_within(sky.top, cap),
    ensures
        spec_color_within(spec_sky_lerp(sky, t), cap),
{
    let tc = spec_clamp01(t);
    lemma_fp_mul_unit_bounded(spec_fp_sub(sky.top.r, sky.bottom.r), tc);
    lemma_fp_mul_unit_bounded(spec_fp_sub(sky.top.g, sky.bottom.g), tc);
    lemma_fp_mul_unit_bounded(spec_fp_sub(sky.top.b, sky.bottom.b), tc);
}

/// Energy non-explosion: in a scene whose materials all attenuate with
/// components in `[0, 1]` and emit nothing, and along a path whose
/// cosine terms stay at most 1, a traced ray's unclamped color never
/// exceeds the bound of the sky colors' components — each bounce only
/// scales the gathered light down by its attenuation, so the color
/// decays monotonically with depth.
pub proof fn lemma_energy_non_explosion(
    objs: Seq<Obj>,
    sky: SkyGradient,
    r: Ray,
    depth: u8,
    s: u64,
    cap: Fx,
)
    requires
        spec_objs_passive(objs),
        spec_color_within(sky.bottom, cap),
        spec_color_within(sky.top, cap),
        spec_decay_ok(objs, r, depth, s),
    ensures
        spec_color_within(spec_ray_color(objs, sky, r, depth, s).0, cap),
    decreases depth,
{
    if depth > 0 {
        match spec_closest_hit(objs, r, HIT_T_MIN, HIT_T_MAX) {
            None => {
                let unit = crate::vec3::spec_vnormalized(r.direction);
                lemma_sky_lerp_within(
                    sky,
                    spec_fp_mul(crate::fp::FP_HALF, crate::fp::spec_fp_add(unit.y, FP_ONE)),
                    cap,
                );
            },
            Some(h) => {
                lemma_closest_hit_material(objs, r, HIT_T_MIN, HIT_T_MAX, 0, h);
                let (sc, s2) = spec_scatter(h.material, r, h.point, h.normal, s);
                match sc {
                    None => {
                    },
                    Some((attenuation, scattered)) => {
                        lemma_energy_non_explosion(
                            objs,
                            sky,
                            scattered,
                            (depth - 1) as u8,
                            s2,
                            cap,
                        );
                        let (incoming, s3) = spec_ray_color(
                            objs,
                            sky,
                            scattered,
                            (depth - 1) as u8,
                            s2,
                        );
                        let strength = spec_fp_abs(spec_vdot(h.normal, scattered.direction));
                        match h.material.surface {
                            Surface::Diffuse(a) => {
                                assert(attenuation == a);
                            },
                            Surface::Mirror(a) => {
                                assert(attenuation == a);
                            },
                            Surface::Absorb => {
                                assert(false);
                            },
                        }
                        lemma_fp_mul_le_unit(incoming.r, attenuation.r);
                        lemma_fp_mul_le_unit(incoming.g, attenuation.g);
                        lemma_fp_mul_le_unit(incoming.b, attenuation.b);
                        lemma_fp_mul_comm(incoming.r, attenuation.r);
                        lemma_fp_mul_comm(incoming.g, attenuation.g);
                        lemma_fp_mul_comm(incoming.b, attenuation.b);
                        let m1 = crate::color::spec_cmul(attenuation, incoming);
                        lemma_fp_mul_le_unit(m1.r, strength);
                        lemma_fp_mul_le_unit(m1.g, strength);
                        lemma_fp_mul_le_unit(m1.b, strength);
                    },
                }
            },
        }
    }
}

/// Whether a ray's closest hit fully absorbs it without emitting.
pub open spec fn spec_ray_absorbed(objs: Seq<Obj>, r: Ray) -> bool {
    match spec_closest_hit(objs, r, HIT_T_MIN, HIT_T_MAX) {
        Some(h) => h.material.surface is Absorb && h.material.emission is None,
        None => false,
    }
}

/// When every ray's closest hit absorbs it, every sample sum is black.
proof fn lemma_samples_black(
    objs: Seq<Obj>,
    sky: SkyGradient,
    origin: Point3,
    vp: Viewport,
    x: int,
    y: int,
    depth: u8,
    n: int,
    s: u64,
)
    requires
        forall|rr: Ray| spec_ray_absorbed(objs, rr),
    ensures
        spec_pixel_samples(objs, sky, origin, vp, x, y, depth, n, s).0 == spec_black(),
    decreases n,
{
    if n > 0 {
        lemma_samples_black(objs, sky, origin, vp, x, y, depth, n - 1, s);
        let (acc, s1) = spec_pixel_samples(objs, sky, origin, vp, x, y, depth, n - 1, s);
        let rr = spec_sample_ray(origin, vp, x, y, s1);
        if depth > 0 {
            assert(spec_ray_absorbed(objs, rr));
            match spec_closest_hit(objs, rr, HIT_T_MIN, HIT_T_MAX) {
                Some(h) => {
                    lemma_absorbed_is_black(
                        objs,
                        sky,
                        rr,
                        depth,
                        spec_rng_step(spec_rng_step(s1)),
                        h,
                    );
                },
                None => {
                    assert(false);
                },
            }
        }
    }
}

/// A scene that absorbs every ray — one whose object fills the whole
/// frame — renders every pixel black, whatever the options.
pub proof fn lemma_absorbing_pixel_black(
    objs: Seq<Obj>,
    sky: SkyGradient,
    origin: Point3,
    vp: Viewport,
    x: int,
    y: int,
    spp: usize,
    depth: u8,
    s: u64,
)
    requires
        forall|rr: Ray| spec_ray_absorbed(objs, rr),
    ensures
        spec_pixel_color(objs, sky, origin, vp, x, y, spp, depth, s).0 == spec_black(),
{
    reveal(spec_pixel_color);
    lemma_samples_black(objs, sky, origin, vp, x, y, depth, spp as int, s);
}

/// Every pixel of a render of an all-absorbing scene is black.
pub proof fn lemma_absorbing_render_black(
    objs: Seq<Obj>,
    sky: SkyGradient,
    origin: Point3,
    vp: Viewport,
    w: u32,
    spp: usize,
    depth: u8,
    k: int,
    s0: u64,
)
    requires
        forall|rr: Ray| spec_ray_absorbed(objs, rr),
        k >= 0,
    ensures
        forall|i: int|
            0 <= i < k ==> (#[trigger] spec_render_upto(
                objs,
                sky,
                origin,
                vp,
                w,
                spp,
                depth,
                k,
                s0,
            ).0[i]).color == spec_black(),
    decreases k,
{
    if k > 0 {
        lemma_absorbing_render_black(objs, sky, origin, vp, w, spp, depth, k - 1, s0);
        lemma_render_upto_len(objs, sky, origin, vp, w, spp, depth, k - 1, s0);
        let pre = spec_render_upto(objs, sky, origin, vp, w, spp, depth, k - 1, s0);
        lemma_absorbing_pixel_black(
            objs,
            sky,
            origin,
            vp,
            (k - 1) % (w as int),
            (k - 1) / (w as int),
            spp,
            depth,
            pre.1,
        );
        let cur = spec_render_upto(objs, sky, origin, vp, w, spp, depth, k, s0).0;
        assert forall|i: int| 0 <= i < k implies (#[trigger] cur[i]).color == spec_black() by {
            if i < k - 1 {
                assert(cur[i] == pre.0[i]);
            }
        }
    }
}

/// With no objects and one sample per pixel, a pixel is exactly the
/// gamma-encoded sky gradient at its (jittered) primary ray.
pub proof fn lemma_empty_scene_pixel(
    objs: Seq<Obj>,
    sky: SkyGradient,
    origin: Point3,
    vp: Viewport,
    x: int,
    y: int,
    depth: u8,
    s: u64,
)
    requires
        objs.len() == 0,
        depth > 0,
    ensures
        spec_pixel_color(objs, sky, origin, vp, x, y, 1, depth, s).0 == spec_linear_to_gamma(
            spec_sky_of_ray(sky, spec_sample_ray(origin, vp, x, y, s)),
        ),
{
    reveal(spec_pixel_color);
    let rr = spec_sample_ray(origin, vp, x, y, s);
    lemma_empty_scene_is_sky(objs, sky, rr, depth, spec_rng_step(spec_rng_step(s)));
    let c = spec_sky_of_ray(sky, rr);
    assert(spec_pixel_samples(objs, sky, origin, vp, x, y, depth, 0, s) == (
        spec_black(),
        s,
    ));
    assert(spec_pixel_samples(objs, sky, origin, vp, x, y, depth, 1, s).0 == c);
    assert(spec_fp_of_int(1) == FP_ONE);
    assert(FP_ONE as int * (crate::fp::FP_SCALE as int) == 0x1_0000_0000) by (nonlinear_arith);
    assert(vstd::math::abs(0x1_0000_0000) == 0x1_0000_0000nat);
    assert(0x1_0000_0000int / 65536int == 65536int) by (nonlinear_arith);
    assert(spec_fp_div(FP_ONE, FP_ONE) == FP_ONE);
    lemma_fp_mul_one(c.r);
    lemma_fp_mul_one(c.g);
    lemma_fp_mul_one(c.b);
}

} // verus!
