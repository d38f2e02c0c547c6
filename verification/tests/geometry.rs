use ray_trace::color::Color;
use ray_trace::fp::{FP_HALF, FP_ONE};
use ray_trace::material::{Material, Surface};
use ray_trace::objects::{Mesh, Obj, Plane, Sphere, ToObj, Triangle};
use ray_trace::ray::Ray;
use ray_trace::scene::{Scene, SkyGradient};
use ray_trace::vec3::Vec3;

fn grey_diffuse() -> Material {
    Material::plain(Surface::Diffuse(Color::grey(FP_HALF)))
}

fn red_diffuse() -> Material {
    Material::plain(Surface::Diffuse(Color::new(FP_ONE, 0, 0)))
}

#[test]
fn vector_ops_exact_values() {
    let a = Vec3::new(3 * FP_ONE, 4 * FP_ONE, 0);
    let b = Vec3::new(FP_ONE, 2 * FP_ONE, -FP_ONE);
    assert_eq!(a.add(b), Vec3::new(4 * FP_ONE, 6 * FP_ONE, -FP_ONE));
    assert_eq!(a.sub(b), Vec3::new(2 * FP_ONE, 2 * FP_ONE, FP_ONE));
    assert_eq!(a.dot(b), 11 * FP_ONE);
    assert_eq!(a.scalar(FP_HALF), Vec3::new(3 * FP_HALF, 2 * FP_ONE, 0));
    assert_eq!(a.length(), 5 * FP_ONE);
    // cross of the axes: x cross y = z
    let x = Vec3::new(FP_ONE, 0, 0);
    let y = Vec3::new(0, FP_ONE, 0);
    assert_eq!(x.cross(y), Vec3::new(0, 0, FP_ONE));
}

#[test]
fn normalized_divides_by_length() {
    let a = Vec3::new(3 * FP_ONE, 4 * FP_ONE, 0);
    // 3/5 and 4/5, truncated toward zero.
    assert_eq!(a.normalized(), Vec3::new(39321, 52428, 0));
    assert_eq!(Vec3::zero().normalized(), Vec3::zero());
}

#[test]
fn ray_at_walks_the_direction() {
    let r = Ray::new(Vec3::new(FP_ONE, 0, 0), Vec3::new(0, 0, -FP_ONE));
    assert_eq!(r.at(2 * FP_ONE), Vec3::new(FP_ONE, 0, -2 * FP_ONE));
}

#[test]
fn plane_hit_reports_distance_point_and_oriented_normal() {
    let pl = Plane {
        point: Vec3::new(0, 0, -5 * FP_ONE),
        normal: Vec3::new(0, 0, FP_ONE),
        material: grey_diffuse(),
    };
    let r = Ray::new(Vec3::zero(), Vec3::new(0, 0, -FP_ONE));
    let h = pl.hit(&r, 66, i64::MAX).unwrap();
    assert_eq!(h.t, 5 * FP_ONE);
    assert_eq!(h.point, Vec3::new(0, 0, -5 * FP_ONE));
    // The plane normal already faces the incoming ray.
    assert_eq!(h.normal, Vec3::new(0, 0, FP_ONE));
    assert_eq!(h.material, grey_diffuse());
}

#[test]
fn plane_parallel_ray_misses() {
    let pl = Plane {
        point: Vec3::new(0, 0, -5 * FP_ONE),
        normal: Vec3::new(0, 0, FP_ONE),
        material: grey_diffuse(),
    };
    let r = Ray::new(Vec3::zero(), Vec3::new(FP_ONE, 0, 0));
    assert_eq!(pl.hit(&r, 66, i64::MAX), None);
}

#[test]
fn plane_hit_behind_origin_is_out_of_window() {
    let pl = Plane {
        point: Vec3::new(0, 0, 5 * FP_ONE),
        normal: Vec3::new(0, 0, FP_ONE),
        material: grey_diffuse(),
    };
    let r = Ray::new(Vec3::zero(), Vec3::new(0, 0, -FP_ONE));
    assert_eq!(pl.hit(&r, 66, i64::MAX), None);
}

#[test]
fn sphere_hit_takes_the_nearer_root() {
    let sp = Sphere {
        center: Vec3::new(0, 0, -5 * FP_ONE),
        radius: FP_ONE,
        material: grey_diffuse(),
    };
    let r = Ray::new(Vec3::zero(), Vec3::new(0, 0, -FP_ONE));
    let h = sp.hit(&r, 66, i64::MAX).unwrap();
    assert_eq!(h.t, 4 * FP_ONE);
    assert_eq!(h.point, Vec3::new(0, 0, -4 * FP_ONE));
    assert_eq!(h.normal, Vec3::new(0, 0, FP_ONE));
}

#[test]
fn sphere_hit_from_inside_takes_the_far_root() {
    let sp = Sphere {
        center: Vec3::zero(),
        radius: 2 * FP_ONE,
        material: grey_diffuse(),
    };
    let r = Ray::new(Vec3::zero(), Vec3::new(0, 0, -FP_ONE));
    let h = sp.hit(&r, 66, i64::MAX).unwrap();
    assert_eq!(h.t, 2 * FP_ONE);
    // Outward normal points away from the center; the ray leaves the
    // sphere from inside, so the record's normal is flipped inward.
    assert_eq!(h.normal, Vec3::new(0, 0, FP_ONE));
}

#[test]
fn sphere_miss() {
    let sp = Sphere {
        center: Vec3::new(10 * FP_ONE, 0, -5 * FP_ONE),
        radius: FP_ONE,
        material: grey_diffuse(),
    };
    let r = Ray::new(Vec3::zero(), Vec3::new(0, 0, -FP_ONE));
    assert_eq!(sp.hit(&r, 66, i64::MAX), None);
}

fn big_triangle_at_z(z_units: i64, material: Material) -> Triangle {
    Triangle {
        a: Vec3::new(-10 * FP_ONE, -10 * FP_ONE, z_units * FP_ONE),
        b: Vec3::new(10 * FP_ONE, -10 * FP_ONE, z_units * FP_ONE),
        c: Vec3::new(0, 10 * FP_ONE, z_units * FP_ONE),
        material,
    }
}

#[test]
fn triangle_hit_inside_reports_distance() {
    let tr = big_triangle_at_z(-2, grey_diffuse());
    let r = Ray::new(Vec3::zero(), Vec3::new(0, 0, -FP_ONE));
    let h = tr.hit(&r, 66, i64::MAX).unwrap();
    // 1/det truncates, so t lands just below 2.0.
    assert_eq!(h.t, 130400);
    assert_eq!(h.material, grey_diffuse());
}

#[test]
fn triangle_miss_outside() {
    let tr = big_triangle_at_z(-2, grey_diffuse());
    let r = Ray::new(
        Vec3::new(100 * FP_ONE, 100 * FP_ONE, 0),
        Vec3::new(0, 0, -FP_ONE),
    );
    assert_eq!(tr.hit(&r, 66, i64::MAX), None);
}

#[test]
fn mesh_hit_picks_the_closest_triangle() {
    let near = big_triangle_at_z(-2, grey_diffuse());
    let far = big_triangle_at_z(-4, red_diffuse());
    let m = Mesh { triangles: vec![far, near] };
    let r = Ray::new(Vec3::zero(), Vec3::new(0, 0, -FP_ONE));
    let h = m.hit(&r, 66, i64::MAX).unwrap();
    assert_eq!(h.material, grey_diffuse());
    assert_eq!(h.t, 130400);
}

#[test]
fn closest_hit_selects_the_nearer_object() {
    // Two overlapping objects along one ray with known distances
    // t1 < t2: the record of the one at t1 is returned, material and all.
    let near = Plane {
        point: Vec3::new(0, 0, -3 * FP_ONE),
        normal: Vec3::new(0, 0, FP_ONE),
        material: grey_diffuse(),
    };
    let far = Plane {
        point: Vec3::new(0, 0, -7 * FP_ONE),
        normal: Vec3::new(0, 0, FP_ONE),
        material: red_diffuse(),
    };
    let scene = Scene {
        objects: vec![far.to_obj(), near.to_obj()],
        sky_color: SkyGradient { bottom: Color::white(), top: Color::white() },
    };
    let r = Ray::new(Vec3::zero(), Vec3::new(0, 0, -FP_ONE));
    let h = scene.hit_closest(&r, 66, i64::MAX).unwrap();
    assert_eq!(h.t, 3 * FP_ONE);
    assert_eq!(h.material, grey_diffuse());
}

#[test]
fn closest_hit_of_empty_scene_is_none() {
    let scene = Scene {
        objects: vec![],
        sky_color: SkyGradient { bottom: Color::white(), top: Color::white() },
    };
    let r = Ray::new(Vec3::zero(), Vec3::new(0, 0, -FP_ONE));
    assert_eq!(scene.hit_closest(&r, 66, i64::MAX), None);
}

#[test]
fn to_obj_wraps_each_shape() {
    let sp = Sphere { center: Vec3::zero(), radius: FP_ONE, material: grey_diffuse() };
    assert!(matches!(sp.to_obj(), Obj::Sphere(_)));
    let pl = Plane {
        point: Vec3::zero(),
        normal: Vec3::new(0, FP_ONE, 0),
        material: grey_diffuse(),
    };
    assert!(matches!(pl.to_obj(), Obj::Plane(_)));
    let tr = big_triangle_at_z(-1, grey_diffuse());
    assert!(matches!(tr.to_obj(), Obj::Triangle(_)));
    let m = Mesh { triangles: vec![tr] };
    assert!(matches!(m.to_obj(), Obj::Mesh(_)));
}
