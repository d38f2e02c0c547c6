use ray_trace::camera::{Camera, RenderOptions};
use ray_trace::color::Color;
use ray_trace::fp::{FP_HALF, FP_ONE};
use ray_trace::material::{Material, Surface};
use ray_trace::objects::{Plane, Sphere, ToObj};
use ray_trace::ray::Ray;
use ray_trace::sampler::Sampler;
use ray_trace::scene::{Scene, SkyGradient};
use ray_trace::vec3::Vec3;

fn sky() -> SkyGradient {
    SkyGradient {
        bottom: Color::white(),
        top: Color::new(FP_HALF, 45875, FP_ONE),
    }
}

fn empty_scene() -> Scene {
    Scene { objects: vec![], sky_color: sky() }
}

fn covering_plane(material: Material) -> Scene {
    Scene {
        objects: vec![
            Plane {
                point: Vec3::new(0, 0, -5 * FP_ONE),
                normal: Vec3::new(0, 0, FP_ONE),
                material,
            }
            .to_obj(),
        ],
        sky_color: sky(),
    }
}

#[test]
fn zero_bounce_limit_is_black() {
    // Even a scene whose object covers the ray returns black at depth 0.
    let scene = covering_plane(Material::plain(Surface::Diffuse(Color::grey(FP_HALF))));
    let r = Ray::new(Vec3::zero(), Vec3::new(0, 0, -FP_ONE));
    let mut rng = Sampler::new(1);
    let c = Camera::ray_color(&scene, r, 0, &mut rng);
    assert_eq!(c, Color::black());
    assert_eq!(rng, Sampler::new(1));
}

#[test]
fn miss_returns_sky_at_normalized_direction() {
    let scene = empty_scene();
    let mut rng = Sampler::new(1);
    // Horizontal ray: the unit direction's vertical component is 0,
    // so the gradient parameter is 0.5.
    let r = Ray::new(Vec3::zero(), Vec3::new(0, 0, -FP_ONE));
    let c = Camera::ray_color(&scene, r, 10, &mut rng);
    assert_eq!(c, scene.sky_color.lerp(FP_HALF));
    // Straight up: parameter 1, the top color exactly.
    let up = Ray::new(Vec3::zero(), Vec3::new(0, FP_ONE, 0));
    let c_up = Camera::ray_color(&scene, up, 10, &mut rng);
    assert_eq!(c_up, sky().top);
    // Straight down: parameter 0, the bottom color exactly.
    let down = Ray::new(Vec3::zero(), Vec3::new(0, -FP_ONE, 0));
    let c_down = Camera::ray_color(&scene, down, 10, &mut rng);
    assert_eq!(c_down, sky().bottom);
    // A miss draws nothing from the sampler.
    assert_eq!(rng, Sampler::new(1));
}

#[test]
fn absorbing_hit_is_black() {
    let scene = covering_plane(Material::plain(Surface::Absorb));
    let r = Ray::new(Vec3::zero(), Vec3::new(0, 0, -FP_ONE));
    let mut rng = Sampler::new(1);
    let c = Camera::ray_color(&scene, r, 50, &mut rng);
    assert_eq!(c, Color::black());
}

#[test]
fn emissive_mirror_with_black_albedo_returns_its_emission() {
    // The reflective contribution is attenuated to black, so what is
    // left is exactly the emission color.
    let emission = Color::new(FP_HALF, 16384, 0);
    let scene = covering_plane(Material::emissive(Surface::Mirror(Color::black()), emission));
    let r = Ray::new(Vec3::zero(), Vec3::new(0, 0, -FP_ONE));
    let mut rng = Sampler::new(1);
    let c = Camera::ray_color(&scene, r, 5, &mut rng);
    assert_eq!(c, emission);
}

#[test]
fn fully_attenuating_diffuse_is_black() {
    // A black albedo multiplies all gathered light away, whatever the
    // sampler draws for the scatter direction.
    let scene = covering_plane(Material::plain(Surface::Diffuse(Color::black())));
    let r = Ray::new(Vec3::zero(), Vec3::new(0, 0, -FP_ONE));
    let mut rng = Sampler::new(99);
    let c = Camera::ray_color(&scene, r, 8, &mut rng);
    assert_eq!(c, Color::black());
}

#[test]
fn ray_color_is_deterministic_per_seed() {
    let scene = covering_plane(Material::plain(Surface::Diffuse(Color::grey(FP_HALF))));
    let r = Ray::new(Vec3::zero(), Vec3::new(0, 0, -FP_ONE));
    let mut rng1 = Sampler::new(7);
    let mut rng2 = Sampler::new(7);
    let c1 = Camera::ray_color(&scene, r, 20, &mut rng1);
    let c2 = Camera::ray_color(&scene, r, 20, &mut rng2);
    assert_eq!(c1, c2);
    assert_eq!(rng1, rng2);
}

#[test]
fn gamma_encoding_is_the_square_root() {
    // 0.25 encodes to 0.5; 1.0 stays 1.0; 0 stays 0.
    let c = Color::new(FP_ONE / 4, FP_ONE, 0).linear_to_gamma();
    assert_eq!(c, Color::new(FP_HALF, FP_ONE, 0));
}

#[test]
fn render_of_constant_sky_is_the_gamma_encoded_sky_everywhere() {
    // With no objects every sample returns the sky; a constant gradient
    // makes every pixel the same color whatever the jitter.
    let flat = Color::grey(FP_ONE / 4);
    let scene = Scene {
        objects: vec![],
        sky_color: SkyGradient { bottom: flat, top: flat },
    };
    let camera = Camera {
        origin: Vec3::zero(),
        direction: Vec3::new(0, 0, -FP_ONE),
        focal_length: FP_ONE,
        image_width: 3,
        image_height: 2,
        viewport_width: 2 * FP_ONE,
    };
    let out = camera.render(&scene, &RenderOptions { samples_per_pixel: 1, bounce_limit: 4 });
    assert_eq!(out.len(), 6);
    for (i, px) in out.iter().enumerate() {
        assert_eq!(px.x as usize, i % 3);
        assert_eq!(px.y as usize, i / 3);
        assert_eq!(px.color, Color::grey(FP_HALF));
    }
}

#[test]
fn render_inside_absorbing_sphere_is_black_everywhere() {
    // An absorbing object filling the whole frame: every primary ray
    // starts inside the sphere and is absorbed at its first hit.
    let scene = Scene {
        objects: vec![
            Sphere {
                center: Vec3::zero(),
                radius: 100 * FP_ONE,
                material: Material::plain(Surface::Absorb),
            }
            .to_obj(),
        ],
        sky_color: sky(),
    };
    let camera = Camera {
        origin: Vec3::zero(),
        direction: Vec3::new(0, 0, -FP_ONE),
        focal_length: FP_ONE,
        image_width: 2,
        image_height: 2,
        viewport_width: 2 * FP_ONE,
    };
    let out = camera.render(&scene, &RenderOptions { samples_per_pixel: 3, bounce_limit: 50 });
    assert_eq!(out.len(), 4);
    for px in out.iter() {
        assert_eq!(px.color, Color::black());
    }
}

#[test]
fn render_emits_every_pixel_exactly_once_in_row_major_order() {
    let scene = empty_scene();
    let camera = Camera {
        origin: Vec3::new(FP_ONE, FP_ONE, FP_ONE),
        direction: Vec3::new(-32768, -16384, -FP_ONE),
        focal_length: 3 * FP_HALF,
        image_width: 5,
        image_height: 4,
        viewport_width: 2 * FP_ONE,
    };
    let out = camera.render(&scene, &RenderOptions { samples_per_pixel: 2, bounce_limit: 10 });
    assert_eq!(out.len(), 20);
    let mut seen = vec![false; 20];
    for (i, px) in out.iter().enumerate() {
        assert_eq!(px.x as usize, i % 5);
        assert_eq!(px.y as usize, i / 5);
        let idx = px.y as usize * 5 + px.x as usize;
        assert!(!seen[idx]);
        seen[idx] = true;
    }
    assert!(seen.iter().all(|&b| b));
}

#[test]
fn render_is_deterministic() {
    let scene = covering_plane(Material::plain(Surface::Diffuse(Color::grey(FP_HALF))));
    let camera = Camera {
        origin: Vec3::zero(),
        direction: Vec3::new(0, 0, -FP_ONE),
        focal_length: FP_ONE,
        image_width: 2,
        image_height: 2,
        viewport_width: 2 * FP_ONE,
    };
    let opts = RenderOptions { samples_per_pixel: 2, bounce_limit: 6 };
    let a = camera.render(&scene, &opts);
    let b = camera.render(&scene, &opts);
    assert_eq!(a, b);
}
