//! The camera and the renderer.
//!
//! The camera derives a viewport basis from its configuration, maps each
//! pixel sample to a primary ray, evaluates the ray's color recursively
//! against the scene up to the bounce limit, and averages the samples
//! through gamma encoding. The whole render is a pure function of the
//! camera, the scene and the options: `render` returns exactly the pixel
//! sequence of its spec-level model, one pixel per coordinate pair, in
//! row-major order.

use vstd::prelude::*;
use vstd::arithmetic::div_mod::lemma_fundamental_div_mod_converse;
use crate::color::{Color, spec_black, spec_cadd, spec_cmul, spec_csub, spec_grey,
    spec_linear_to_gamma, spec_white};
use crate::fp::{Fx, FP_HALF, FP_ONE, fp_abs, fp_add, fp_div, fp_mul, fp_neg, fp_of_u32,
    fp_of_usize, fp_sub, spec_fp_abs, spec_fp_add, spec_fp_div, spec_fp_mul, spec_fp_neg,
    spec_fp_of_int, spec_fp_sub};
use crate::material::spec_scatter;
use crate::objects::Obj;
use crate::ray::Ray;
use crate::sampler::{Sampler, spec_rng_step, spec_rng_unit};
use crate::scene::{Scene, SkyGradient, spec_closest_hit, spec_sky_lerp};
use crate::vec3::{Point3, Vec3, spec_vadd, spec_vcross, spec_vdot, spec_vnormalized, spec_vscale,
    spec_vsub, spec_vzero};

verus! {

/// The lower bound of the hit window for traced rays, just above zero
/// (about 0.001), so a secondary ray does not re-hit the surface it
/// starts on.
pub const HIT_T_MIN: Fx = 66;

/// The upper bound of the hit window for traced rays: unbounded.
pub const HIT_T_MAX: Fx = i64::MAX;

/// The seed of the sampler stream a render consumes.
pub const RENDER_SEED: u64 = 256;

/// A camera: where rays start, where it looks, and the image geometry.
/// The view direction must be non-zero; a direction with zero depth
/// component degenerates the viewport basis (its horizontal division
/// yields zero).
#[derive(Clone, Copy, Debug)]
pub struct Camera {
    pub origin: Point3,
    pub direction: Vec3,
    pub focal_length: Fx,
    pub image_width: u32,
    pub image_height: u32,
    pub viewport_width: Fx,
}

/// How a render runs: samples per pixel and the recursion depth cap.
#[derive(Clone, Copy, Debug)]
pub struct RenderOptions {
    pub samples_per_pixel: usize,
    pub bounce_limit: u8,
}

/// One finished pixel: its coordinates and its gamma-encoded color.
#[derive(Clone, Copy, Debug, PartialEq, Eq, Structural)]
pub struct Pixel {
    pub x: u32,
    pub y: u32,
    pub color: Color,
}

/// The viewport basis derived from a camera at render start.
#[derive(Clone, Copy, Debug)]
pub struct Viewport {
    pub upper_left: Point3,
    pub delta_u: Vec3,
    pub delta_v: Vec3,
}

/// The horizontal viewport basis vector: constrained to the horizontal
/// plane and perpendicular to the view direction, scaled to the viewport
/// width.
pub open spec fn spec_viewport_u(cam: Camera) -> Vec3 {
    let z = spec_fp_neg(spec_fp_div(cam.direction.x, cam.direction.z));
    spec_vscale(spec_vnormalized(Vec3 { x: FP_ONE, y: 0, z }), cam.viewport_width)
}

/// The vertical viewport basis vector: perpendicular to the horizontal
/// basis and the view direction, scaled to the viewport height (the
/// width adjusted by the image's aspect ratio) and pointing down.
pub open spec fn spec_viewport_v(cam: Camera) -> Vec3 {
    let vh = spec_fp_mul(
        spec_fp_div(cam.viewport_width, spec_fp_of_int(cam.image_width as int)),
        spec_fp_of_int(cam.image_height as int),
    );
    spec_vscale(
        spec_vnormalized(spec_vcross(spec_viewport_u(cam), cam.direction)),
        spec_fp_neg(vh),
    )
}

/// The world-space step from one pixel to the next along a row.
pub open spec fn spec_pixel_delta_u(cam: Camera) -> Vec3 {
    spec_vscale(spec_viewport_u(cam), spec_fp_div(FP_ONE, spec_fp_of_int(cam.image_width as int)))
}

/// The world-space step from one pixel row to the next.
pub open spec fn spec_pixel_delta_v(cam: Camera) -> Vec3 {
    spec_vscale(spec_viewport_v(cam), spec_fp_div(FP_ONE, spec_fp_of_int(cam.image_height as int)))
}

/// The upper-left corner of the viewport rectangle in world space.
pub open spec fn spec_viewport_upper_left(cam: Camera) -> Point3 {
    spec_vadd(
        spec_vsub(
            spec_vsub(cam.origin, spec_vscale(spec_viewport_u(cam), FP_HALF)),
            spec_vscale(spec_viewport_v(cam), FP_HALF),
        ),
        spec_vscale(spec_vnormalized(cam.direction), cam.focal_length),
    )
}

/// The full viewport basis derived from a camera.
pub open spec fn spec_viewport(cam: Camera) -> Viewport {
    Viewport {
        upper_left: spec_viewport_upper_left(cam),
        delta_u: spec_pixel_delta_u(cam),
        delta_v: spec_pixel_delta_v(cam),
    }
}

/// The sky color a missed ray returns: the gradient sampled where the
/// normalized direction's vertical component, mapped from `[-1, 1]` to
/// `[0, 1]`, points.
pub open spec fn spec_sky_of_ray(sky: SkyGradient, r: Ray) -> Color {
    let unit = spec_vnormalized(r.direction);
    spec_sky_lerp(sky, spec_fp_mul(FP_HALF, spec_fp_add(unit.y, FP_ONE)))
}

/// The color a traced ray gathers, and the sampler state left behind.
/// With the depth exhausted the ray is black; a miss returns the sky
/// gradient; an absorbed hit is black; a scattered hit recurses on the
/// outgoing ray, attenuates the gathered light by the material color and
/// by the cosine term `|normal . outgoing|`, and blends emission, when
/// present, with the headroom below white.
pub open spec fn spec_ray_color(
    objs: Seq<Obj>,
    sky: SkyGradient,
    r: Ray,
    depth: u8,
    s: u64,
) -> (Color, u64)
    decreases depth,
{
    if depth == 0 {
        (spec_black(), s)
    } else {
        match spec_closest_hit(objs, r, HIT_T_MIN, HIT_T_MAX) {
            None => (spec_sky_of_ray(sky, r), s),
            Some(h) => {
                let (sc, s2) = spec_scatter(h.material, r, h.point, h.normal, s);
                match sc {
                    None => (spec_black(), s2),
                    Some((attenuation, scattered)) => {
                        let (incoming, s3) = spec_ray_color(
                            objs,
                            sky,
                            scattered,
                            (depth - 1) as u8,
                            s2,
                        );
                        let strength = spec_fp_abs(spec_vdot(h.normal, scattered.direction));
                        let background = spec_cmul(
                            spec_cmul(attenuation, incoming),
                            spec_grey(strength),
                        );
                        let out = match h.material.emission {
                            Some(emission) => spec_cadd(
                                emission,
                                spec_cmul(spec_csub(spec_white(), emission), background),
                            ),
                            None => background,
                        };
                        (out, s3)
                    },
                }
            },
        }
    }
}

/// The primary ray of one pixel sample: two jitter draws from state `s`
/// place the sample within the pixel cell, and the viewport basis maps
/// it to the world point the ray is cast through.
pub open spec fn spec_sample_ray(origin: Point3, vp: Viewport, x: int, y: int, s: u64) -> Ray {
    let jx = spec_rng_unit(s);
    let s1 = spec_rng_step(s);
    let jy = spec_rng_unit(s1);
    let px = spec_fp_sub(jx, FP_HALF);
    let py = spec_fp_sub(jy, FP_HALF);
    let center = spec_vadd(
        spec_vadd(
            spec_vadd(
                vp.upper_left,
                spec_vscale(vp.delta_u, spec_fp_add(spec_fp_of_int(x), px)),
            ),
            spec_vscale(vp.delta_v, spec_fp_add(spec_fp_of_int(y), py)),
        ),
        spec_vscale(spec_vadd(vp.delta_u, vp.delta_v), FP_HALF),
    );
    Ray { origin, direction: spec_vsub(center, origin) }
}

/// One pixel sample: the primary ray's color, after the two jitter draws.
pub open spec fn spec_sample(
    objs: Seq<Obj>,
    sky: SkyGradient,
    origin: Point3,
    vp: Viewport,
    x: int,
    y: int,
    depth: u8,
    s: u64,
) -> (Color, u64) {
    let r = spec_sample_ray(origin, vp, x, y, s);
    spec_ray_color(objs, sky, r, depth, spec_rng_step(spec_rng_step(s)))
}

/// The sum of the first `n` samples of a pixel, in draw order.
pub open spec fn spec_pixel_samples(
    objs: Seq<Obj>,
    sky: SkyGradient,
    origin: Point3,
    vp: Viewport,
    x: int,
    y: int,
    depth: u8,
    n: int,
    s: u64,
) -> (Color, u64)
    decreases n,
{
    if n <= 0 {
        (spec_black(), s)
    } else {
        let (acc, s1) = spec_pixel_samples(objs, sky, origin, vp, x, y, depth, n - 1, s);
        let (c, s2) = spec_sample(objs, sky, origin, vp, x, y, depth, s1);
        (spec_cadd(acc, c), s2)
    }
}

/// A finished pixel's color: the sample sum averaged over the sample
/// count and gamma-encoded.
#[verifier::opaque]
pub open spec fn spec_pixel_color(
    objs: Seq<Obj>,
    sky: SkyGradient,
    origin: Point3,
    vp: Viewport,
    x: int,
    y: int,
    spp: usize,
    depth: u8,
    s: u64,
) -> (Color, u64) {
    let (sum, s1) = spec_pixel_samples(objs, sky, origin, vp, x, y, depth, spp as int, s);
    let avg = spec_cmul(sum, spec_grey(spec_fp_div(FP_ONE, spec_fp_of_int(spp as int))));
    (spec_linear_to_gamma(avg), s1)
}

/// The first `k` pixels of a render in row-major order (pixel `i` at
/// column `i % w`, row `i / w`), with the sampler state threaded through
/// them from `s0`.
pub open spec fn spec_render_upto(
    objs: Seq<Obj>,
    sky: SkyGradient,
    origin: Point3,
    vp: Viewport,
    w: u32,
    spp: usize,
    depth: u8,
    k: int,
    s0: u64,
) -> (Seq<Pixel>, u64)
    decreases k,
{
    if k <= 0 {
        (Seq::empty(), s0)
    } else {
        let (pre, s) = spec_render_upto(objs, sky, origin, vp, w, spp, depth, k - 1, s0);
        let xi = (k - 1) % (w as int);
        let yi = (k - 1) / (w as int);
        let (c, s2) = spec_pixel_color(objs, sky, origin, vp, xi, yi, spp, depth, s);
        (pre.push(Pixel { x: xi as u32, y: yi as u32, color: c }), s2)
    }
}

/// The whole render: every pixel of the image, in row-major order,
/// starting from the render seed.
pub open spec fn spec_render(
    objs: Seq<Obj>,
    sky: SkyGradient,
    cam: Camera,
    spp: usize,
    depth: u8,
) -> Seq<Pixel> {
    spec_render_upto(
        objs,
        sky,
        cam.origin,
        spec_viewport(cam),
        cam.image_width,
        spp,
        depth,
        cam.image_width as int * cam.image_height as int,
        RENDER_SEED,
    ).0
}

impl Camera {
    /// The upper-left corner of the viewport rectangle.
    fn calc_viewport_upper_left(&self) -> (r: Point3)
        ensures
            r == spec_viewport_upper_left(*self),
    {
        self.origin.sub(self.calc_viewport_u().scalar(FP_HALF)).sub(
            self.calc_viewport_v().scalar(FP_HALF),
        ).add(self.direction.normalized().scalar(self.focal_length))
    }

    /// The horizontal viewport basis vector.
    fn calc_viewport_u(&self) -> (r: Vec3)
        ensures
            r == spec_viewport_u(*self),
    {
        let z = fp_neg(fp_div(self.direction.x, self.direction.z));
        Vec3 { x: FP_ONE, y: 0, z }.normalized().scalar(self.viewport_width)
    }

    /// The vertical viewport basis vector.
    fn calc_viewport_v(&self) -> (r: Vec3)
        ensures
            r == spec_viewport_v(*self),
    {
        let viewport_height = fp_mul(
            fp_div(self.viewport_width, fp_of_u32(self.image_width)),
            fp_of_u32(self.image_height),
        );
        self.calc_viewport_u().cross(self.direction).normalized().scalar(fp_neg(viewport_height))
    }

    /// The world-space step from one pixel to the next along a row.
    fn calc_pixel_delta_u(&self) -> (r: Vec3)
        ensures
            r == spec_pixel_delta_u(*self),
    {
        self.calc_viewport_u().scalar(fp_div(FP_ONE, fp_of_u32(self.image_width)))
    }

    /// The world-space step from one pixel row to the next.
    fn calc_pixel_delta_v(&self) -> (r: Vec3)
        ensures
            r == spec_pixel_delta_v(*self),
    {
        self.calc_viewport_v().scalar(fp_div(FP_ONE, fp_of_u32(self.image_height)))
    }

    /// The color of a traced ray: black when the depth is exhausted or
    /// the hit absorbs the ray; the sky gradient on a miss; otherwise
    /// the scattered ray's color, attenuated by the material and the
    /// cosine term, with emission blended in.
    pub fn ray_color(scene: &Scene, ray: Ray, depth: u8, rng: &mut Sampler) -> (c: Color)
        ensures
            (c, final(rng).state) == spec_ray_color(
                scene.objects@,
                scene.sky_color,
                ray,
                depth,
                old(rng).state,
            ),
            depth == 0 ==> c == spec_black(),
        decreases depth,
    {
        if depth == 0 {
            return Color::black();
        }
        match scene.hit_closest(&ray, HIT_T_MIN, HIT_T_MAX) {
            Some(hit_info) => {
                match hit_info.material.scatter(&ray, &hit_info, rng) {
                    Some((color, scattered)) => {
                        let incoming = Self::ray_color(scene, scattered, depth - 1, rng);
                        let light_strength = fp_abs(hit_info.normal.dot(scattered.direction));
                        let background = color.mul(incoming).mul(Color::grey(light_strength));
                        match hit_info.material.emission {
                            Some(emission) => emission.add(
                                Color::white().sub(emission).mul(background),
                            ),
                            None => background,
                        }
                    },
                    None => Color::black(),
                }
            },
            None => {
                let unit_direction = ray.direction.normalized();
                let t = fp_mul(FP_HALF, fp_add(unit_direction.y, FP_ONE));
                scene.sky_color.lerp(t)
            },
        }
    }

    /// One finished pixel's color: the configured number of samples,
    /// jittered within the pixel cell and traced, averaged and
    /// gamma-encoded.
    #[verifier::loop_isolation(false)]
    fn render_pixel(
        scene: &Scene,
        origin: Point3,
        vp: &Viewport,
        x: u32,
        y: u32,
        options: &RenderOptions,
        rng: &mut Sampler,
    ) -> (c: Color)
        ensures
            (c, final(rng).state) == spec_pixel_color(
                scene.objects@,
                scene.sky_color,
                origin,
                *vp,
                x as int,
                y as int,
                options.samples_per_pixel,
                options.bounce_limit,
                old(rng).state,
            ),
    {
        let ghost s_pix = rng.state;
        let mut pixel_color = Color::black();
        let mut si: usize = 0;
        while si < options.samples_per_pixel
            invariant
                si <= options.samples_per_pixel,
                (pixel_color, rng.state) == spec_pixel_samples(
                    scene.objects@,
                    scene.sky_color,
                    origin,
                    *vp,
                    x as int,
                    y as int,
                    options.bounce_limit,
                    si as int,
                    s_pix,
                ),
            decreases options.samples_per_pixel - si,
        {
            let jx = rng.next_unit();
            let jy = rng.next_unit();
            let px = fp_sub(jx, FP_HALF);
            let py = fp_sub(jy, FP_HALF);

            let pixel_center = vp.upper_left.add(
                vp.delta_u.scalar(fp_add(fp_of_u32(x), px)),
            ).add(vp.delta_v.scalar(fp_add(fp_of_u32(y), py))).add(
                vp.delta_u.add(vp.delta_v).scalar(FP_HALF),
            );
            let ray_direction = pixel_center.sub(origin);

            let r = Ray::new(origin, ray_direction);
            let sample = Self::ray_color(scene, r, options.bounce_limit, rng);
            pixel_color = pixel_color.add(sample);
            si = si + 1;
        }
        let inv_spp = fp_div(FP_ONE, fp_of_usize(options.samples_per_pixel));
        proof {
            reveal(spec_pixel_color);
        }
        pixel_color.mul(Color::grey(inv_spp)).linear_to_gamma()
    }

    /// Render the scene: every pixel of the image, each exactly once, in
    /// row-major order (left to right, top to bottom), with its
    /// gamma-encoded color; exactly the pixel sequence of the render's
    /// model.
    #[verifier::loop_isolation(false)]
    #[verifier::rlimit(50)]
    pub fn render(&self, scene: &Scene, options: &RenderOptions) -> (out: Vec<Pixel>)
        requires
            self.direction != spec_vzero(),
            self.image_width >= 1,
            self.image_height >= 1,
            self.focal_length > 0,
            self.viewport_width > 0,
            options.samples_per_pixel >= 1,
        ensures
            out@ == spec_render(
                scene.objects@,
                scene.sky_color,
                *self,
                options.samples_per_pixel,
                options.bounce_limit,
            ),
            out@.len() == self.image_width as int * self.image_height as int,
            forall|i: int|
                0 <= i < out@.len() ==> (#[trigger] out@[i]).x == i % (self.image_width as int)
                    && out@[i].y == i / (self.image_width as int),
    {
        let w = self.image_width;
        let h = self.image_height;
        let viewport_upper_left = self.calc_viewport_upper_left();
        let pixel_delta_u = self.calc_pixel_delta_u();
        let pixel_delta_v = self.calc_pixel_delta_v();
        let ghost vp = spec_viewport(*self);
        assert(vp == (Viewport {
            upper_left: viewport_upper_left,
            delta_u: pixel_delta_u,
            delta_v: pixel_delta_v,
        }));

        let mut rng = Sampler::new(RENDER_SEED);
        let mut out: Vec<Pixel> = Vec::new();
        let mut y: u32 = 0;
        while y < h
            invariant
                y <= h,
                out@.len() == y as int * w as int,
                (out@, rng.state) == spec_render_upto(
                    scene.objects@,
                    scene.sky_color,
                    self.origin,
                    vp,
                    w,
                    options.samples_per_pixel,
                    options.bounce_limit,
                    y as int * w as int,
                    RENDER_SEED,
                ),
                forall|i: int|
                    0 <= i < out@.len() ==> (#[trigger] out@[i]).x == i % (w as int)
                        && out@[i].y == i / (w as int),
            decreases h - y,
        {
            let mut x: u32 = 0;
            while x < w
                invariant
                    x <= w,
                    y < h,
                    out@.len() == y as int * w as int + x as int,
                    (out@, rng.state) == spec_render_upto(
                        scene.objects@,
                        scene.sky_color,
                        self.origin,
                        vp,
                        w,
                        options.samples_per_pixel,
                        options.bounce_limit,
                        y as int * w as int + x as int,
                        RENDER_SEED,
                    ),
                    forall|i: int|
                        0 <= i < out@.len() ==> (#[trigger] out@[i]).x == i % (w as int)
                            && out@[i].y == i / (w as int),
                decreases w - x,
            {
                let exec_vp = Viewport {
                    upper_left: viewport_upper_left,
                    delta_u: pixel_delta_u,
                    delta_v: pixel_delta_v,
                };
                let color = Self::render_pixel(scene, self.origin, &exec_vp, x, y, options, &mut rng);
                proof {
                    let k = y as int * w as int + x as int;
                    lemma_fundamental_div_mod_converse(k, w as int, y as int, x as int);
                    assert(k % (w as int) == x as int);
                    assert(k / (w as int) == y as int);
                }
                out.push(Pixel { x, y, color });
                x = x + 1;
            }
            proof {
                assert(y as int * w as int + w as int == (y + 1) as int * w as int) by (nonlinear_arith);
            }
            y = y + 1;
        }
        proof {
            assert(h as int * w as int == w as int * h as int) by (nonlinear_arith);
        }
        out
    }
}

} // verus!
