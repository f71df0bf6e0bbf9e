use raytracer::fx::{FX_ONE, FX_EPS, fmin, fmax, min3, max3, clamp, fx_add, fx_sub, fx_mul,
    fx_div, fx_sqrt, fx_abs, fx_sin, fx_cos, fx_neg_ln_unit, FX_PI, FX_PI_2};
use raytracer::vec3::{Vec3, reflect, random_in_unit_sphere, random_in_unit_disk};
use raytracer::ray::Ray;
use raytracer::aabb::AABB;
use raytracer::sphere::{Sphere, MovingSphere};
use raytracer::aarec::{XyRect, XzRect, YzRect, Triangle};
use raytracer::object::{Object, Box_, Translate, RotateY, FlipFace};

fn fx(x: f64) -> i64 {
    (x * 65536.0).round() as i64
}

fn approx(a: i64, b: i64, tol: i64) -> bool {
    (a - b).abs() <= tol
}

#[test]
fn scalar_min_max_clamp() {
    assert_eq!(fmin(3, 5), 3);
    assert_eq!(fmax(3, 5), 5);
    assert_eq!(min3(4, -2, 9), -2);
    assert_eq!(max3(4, -2, 9), 9);
    assert_eq!(clamp(7, 0, 5), 5);
    assert_eq!(clamp(-7, 0, 5), 0);
    assert_eq!(clamp(3, 0, 5), 3);
}

#[test]
fn scalar_arithmetic_exact() {
    assert_eq!(fx_add(fx(1.5), fx(2.25)), fx(3.75));
    assert_eq!(fx_sub(fx(1.0), fx(0.25)), fx(0.75));
    assert_eq!(fx_mul(fx(3.0), fx(4.0)), fx(12.0));
    assert_eq!(fx_div(fx(12.0), fx(4.0)), fx(3.0));
    assert_eq!(fx_sqrt(fx(9.0)), fx(3.0));
    assert_eq!(fx_abs(fx(-2.5)), fx(2.5));
    // division by zero saturates rather than crashing
    assert!(fx_div(fx(1.0), 0) > fx(1000000.0));
    assert_eq!(fx_div(0, 0), 0);
}

#[test]
fn scalar_trig_close() {
    assert!(approx(fx_sin(FX_PI_2), FX_ONE, 80));
    assert_eq!(fx_sin(0), 0);
    assert_eq!(fx_cos(FX_PI_2), 0);
    assert!(approx(fx_cos(0), FX_ONE, 80));
    assert!(approx(fx_sin(FX_PI), 0, 80));
}

#[test]
fn neg_log_of_half_close_to_ln_two() {
    let v = fx_neg_ln_unit(32768);
    assert!(v > 43000 && v < 46000, "got {v}");
    assert_eq!(fx_neg_ln_unit(0), raytracer::fx::FX_INF);
    assert_eq!(fx_neg_ln_unit(65535), 1);
}

#[test]
fn vector_algebra() {
    let a = Vec3::new(fx(1.0), fx(2.0), fx(3.0));
    let b = Vec3::new(fx(4.0), fx(5.0), fx(6.0));
    assert_eq!(a.add(&b), Vec3::new(fx(5.0), fx(7.0), fx(9.0)));
    assert_eq!(a.sub(&b), Vec3::new(fx(-3.0), fx(-3.0), fx(-3.0)));
    assert_eq!(Vec3::dot(a, b), fx(32.0));
    assert_eq!(Vec3::cross(a, b), Vec3::new(fx(-3.0), fx(6.0), fx(-3.0)));
    assert_eq!(a.scale(fx(2.0)), Vec3::new(fx(2.0), fx(4.0), fx(6.0)));
    let u = Vec3::new(fx(3.0), fx(4.0), 0).unit();
    assert!(approx(u.x, fx(0.6), 4));
    assert!(approx(u.y, fx(0.8), 4));
}

#[test]
fn reflection_formula() {
    let v = Vec3::new(fx(1.0), fx(-1.0), 0);
    let n = Vec3::new(0, FX_ONE, 0);
    let r = reflect(v, n);
    assert_eq!(r, Vec3::new(fx(1.0), fx(1.0), 0));
}

#[test]
fn random_draws_in_bounds() {
    for _ in 0..50 {
        let s = random_in_unit_sphere();
        assert!(s.len_squared() < FX_ONE);
        let d = random_in_unit_disk();
        assert!(d.len_squared() < FX_ONE);
        assert_eq!(d.z, 0);
    }
}

#[test]
fn aabb_crossing_ranges_along_each_axis() {
    // a unit-ish box from (1,1,1) to (3,3,3)
    let bb = AABB::new(
        Vec3::new(fx(1.0), fx(1.0), fx(1.0)),
        Vec3::new(fx(3.0), fx(3.0), fx(3.0)),
    );
    let dirs = [
        Vec3::new(FX_ONE, 0, 0),
        Vec3::new(0, FX_ONE, 0),
        Vec3::new(0, 0, FX_ONE),
    ];
    let origs = [
        Vec3::new(fx(-1.0), fx(2.0), fx(2.0)),
        Vec3::new(fx(2.0), fx(-1.0), fx(2.0)),
        Vec3::new(fx(2.0), fx(2.0), fx(-1.0)),
    ];
    for k in 0..3 {
        let r = Ray::new(origs[k], dirs[k], 0);
        // the crossing happens for parameters in (2, 4)
        assert!(bb.hit(&r, fx(0.0), fx(10.0)));
        assert!(bb.hit(&r, fx(1.0), fx(5.0)));
        // a range entirely before the crossing misses
        assert!(!bb.hit(&r, fx(0.0), fx(1.5)));
        // a range entirely after the crossing misses
        assert!(!bb.hit(&r, fx(5.0), fx(10.0)));
    }
}

#[test]
fn aabb_parallel_outside_misses() {
    let bb = AABB::new(
        Vec3::new(fx(1.0), fx(1.0), fx(1.0)),
        Vec3::new(fx(3.0), fx(3.0), fx(3.0)),
    );
    // parallel to the x slab, origin outside it
    let r = Ray::new(Vec3::new(fx(5.0), fx(2.0), fx(-1.0)), Vec3::new(0, 0, FX_ONE), 0);
    assert!(!bb.hit(&r, fx(-100.0), fx(100.0)));
    assert!(!bb.hit(&r, fx(0.0), fx(10.0)));
    // on the boundary plane of a degenerate slab the box stays penetrable
    let flat = AABB::new(
        Vec3::new(fx(1.0), fx(2.0), fx(1.0)),
        Vec3::new(fx(3.0), fx(2.0), fx(3.0)),
    );
    let r2 = Ray::new(Vec3::new(fx(2.0), fx(2.0), fx(-1.0)), Vec3::new(0, 0, FX_ONE), 0);
    assert!(flat.hit(&r2, fx(0.0), fx(10.0)));
}

#[test]
fn aabb_union_is_componentwise() {
    let a = AABB::new(Vec3::new(0, 0, 0), Vec3::new(fx(1.0), fx(1.0), fx(1.0)));
    let b = AABB::new(Vec3::new(fx(-1.0), fx(0.5), 0), Vec3::new(fx(0.5), fx(2.0), fx(3.0)));
    let u = AABB::surrounding_box(a, b);
    assert_eq!(u.minimum, Vec3::new(fx(-1.0), 0, 0));
    assert_eq!(u.maximum, Vec3::new(fx(1.0), fx(2.0), fx(3.0)));
}

#[test]
fn sphere_round_trip_head_on() {
    let s = Sphere::new(Vec3::new(0, 0, 0), fx(2.0), 0);
    let r = Ray::new(Vec3::new(0, 0, fx(10.0)), Vec3::new(0, 0, -FX_ONE), 0);
    let h = s.hit(&r, 0, fx(1000.0)).expect("head-on ray must hit");
    // the hit point lies at distance ~radius from the center, near side
    assert_eq!(h.p.x, 0);
    assert_eq!(h.p.y, 0);
    assert!(h.p.z <= fx(2.0) && h.p.z >= fx(2.0) - 257);
    assert!(h.front_face);
    // the normal opposes the incoming direction
    assert!(Vec3::dot(r.dir, h.normal) < 0);
    // the ray parameter is the travelled distance
    assert!(approx(h.t, fx(8.0), 300));
}

#[test]
fn sphere_prefers_near_root_and_respects_range() {
    let s = Sphere::new(Vec3::new(0, 0, 0), fx(2.0), 0);
    let r = Ray::new(Vec3::new(0, 0, fx(10.0)), Vec3::new(0, 0, -FX_ONE), 0);
    // narrowing the range past the near root exposes the far root
    let far = s.hit(&r, fx(9.0), fx(1000.0)).expect("far root in range");
    assert!(approx(far.t, fx(12.0), 300));
    assert!(!far.front_face);
    // a range before the sphere misses
    assert!(s.hit(&r, 0, fx(7.0)).is_none());
}

#[test]
fn moving_sphere_interpolates_center() {
    let ms = MovingSphere::new(
        Vec3::new(0, 0, 0),
        Vec3::new(fx(4.0), 0, 0),
        0,
        FX_ONE,
        fx(1.0),
        0,
    );
    assert_eq!(ms.center(0), Vec3::new(0, 0, 0));
    assert_eq!(ms.center(FX_ONE), Vec3::new(fx(4.0), 0, 0));
    assert_eq!(ms.center(32768), Vec3::new(fx(2.0), 0, 0));
    // a ray cast at the end time sees the moved sphere
    let r = Ray::new(Vec3::new(fx(4.0), 0, fx(10.0)), Vec3::new(0, 0, -FX_ONE), FX_ONE);
    assert!(ms.hit(&r, 0, fx(1000.0)).is_some());
    let r0 = Ray::new(Vec3::new(fx(4.0), 0, fx(10.0)), Vec3::new(0, 0, -FX_ONE), 0);
    assert!(ms.hit(&r0, 0, fx(1000.0)).is_none());
}

#[test]
fn rect_hit_and_uv() {
    let rect = XyRect::new(0, fx(2.0), 0, fx(2.0), fx(1.0), 0);
    let r = Ray::new(Vec3::new(fx(0.5), fx(1.0), fx(3.0)), Vec3::new(0, 0, -FX_ONE), 0);
    let h = rect.hit(&r, 0, fx(100.0)).expect("must hit the plane");
    assert_eq!(h.t, fx(2.0));
    assert_eq!(h.p, Vec3::new(fx(0.5), fx(1.0), fx(1.0)));
    assert_eq!(h.u, fx(0.25));
    assert_eq!(h.v, fx(0.5));
    assert!(h.front_face);
    // outside the planar bounds there is no hit
    let miss = Ray::new(Vec3::new(fx(5.0), fx(1.0), fx(3.0)), Vec3::new(0, 0, -FX_ONE), 0);
    assert!(rect.hit(&miss, 0, fx(100.0)).is_none());
}

#[test]
fn rect_bounding_boxes_are_padded() {
    let xz = XzRect::new(0, fx(1.0), 0, fx(1.0), fx(2.0), 0);
    let bb = xz.bounding_box();
    assert_eq!(bb.minimum.y, fx(2.0) - FX_EPS);
    assert_eq!(bb.maximum.y, fx(2.0) + FX_EPS);
    let yz = YzRect::new(0, fx(1.0), 0, fx(1.0), fx(3.0), 0);
    let bb2 = yz.bounding_box();
    assert_eq!(bb2.minimum.x, fx(3.0) - FX_EPS);
    assert_eq!(bb2.maximum.x, fx(3.0) + FX_EPS);
}

#[test]
fn triangle_inside_and_hit() {
    let t = Triangle::new(0, 0, 0, fx(4.0), 0, 0, 0, fx(4.0), 0, 0);
    assert!(t.inside(fx(1.0), fx(1.0), 0));
    assert!(!t.inside(fx(3.5), fx(3.5), 0));
    let r = Ray::new(Vec3::new(fx(1.0), fx(1.0), fx(5.0)), Vec3::new(0, 0, -FX_ONE), 0);
    let h = t.hit(&r, 0, fx(100.0)).expect("must hit the triangle");
    assert_eq!(h.t, fx(5.0));
    let miss = Ray::new(Vec3::new(fx(3.9), fx(3.9), fx(5.0)), Vec3::new(0, 0, -FX_ONE), 0);
    assert!(t.hit(&miss, 0, fx(100.0)).is_none());
}

#[test]
fn box_prism_delegates_to_sides() {
    let bx = Box_::new(Vec3::new(0, 0, 0), Vec3::new(fx(1.0), fx(1.0), fx(1.0)), 0);
    let obj = Object::Prism(bx);
    let r = Ray::new(Vec3::new(fx(0.5), fx(0.5), fx(3.0)), Vec3::new(0, 0, -FX_ONE), 0);
    let h = obj.hit(&r, 0, fx(100.0)).expect("must hit the near face");
    assert_eq!(h.t, fx(2.0));
    let bb = obj.bounding_box(0, FX_ONE).unwrap();
    assert_eq!(bb.minimum, Vec3::new(0, 0, 0));
    assert_eq!(bb.maximum, Vec3::new(fx(1.0), fx(1.0), fx(1.0)));
}

#[test]
fn flip_face_inverts_orientation_only() {
    let s = Object::Sphere(Sphere::new(Vec3::new(0, 0, 0), fx(2.0), 0));
    let r = Ray::new(Vec3::new(0, 0, fx(10.0)), Vec3::new(0, 0, -FX_ONE), 0);
    let plain = s.hit(&r, 0, fx(1000.0)).unwrap();
    let flipped = Object::Flip(FlipFace::new(s)).hit(&r, 0, fx(1000.0)).unwrap();
    assert_eq!(plain.t, flipped.t);
    assert_eq!(plain.p, flipped.p);
    assert_eq!(plain.front_face, !flipped.front_face);
}

#[test]
fn translate_rotate_composition_matches_manual_transform() {
    // a unit box, translated by (5,0,0), then rotated 90 degrees about y
    let unit_box = || {
        Object::Prism(Box_::new(
            Vec3::new(0, 0, 0),
            Vec3::new(FX_ONE, FX_ONE, FX_ONE),
            0,
        ))
    };
    let translated = Object::Translated(Translate::new(unit_box(), Vec3::new(fx(5.0), 0, 0)));
    let rotated = RotateY::new(translated, fx(90.0));
    let sin_t = rotated.sin_theta;
    let cos_t = rotated.cos_theta;
    let composed = Object::Rotated(rotated);
    // aim at where the rotated box ends up: x in (0,1), z in (-5.5,...)
    let r = Ray::new(Vec3::new(fx(0.5), fx(0.5), fx(5.0)), Vec3::new(0, 0, -FX_ONE), 0);
    let h = composed.hit(&r, 0, fx(1000.0)).expect("composed transform must hit");
    // transform the ray by the inverse rotation, then the inverse
    // translation, and intersect the bare box
    let rot_in = |v: Vec3| {
        Vec3::new(
            fx_sub(fx_mul(cos_t, v.x), fx_mul(sin_t, v.z)),
            v.y,
            fx_add(fx_mul(cos_t, v.z), fx_mul(sin_t, v.x)),
        )
    };
    let moved = Ray::new(
        rot_in(r.orig).sub(&Vec3::new(fx(5.0), 0, 0)),
        rot_in(r.dir),
        r.time,
    );
    let manual = unit_box().hit(&moved, 0, fx(1000.0)).expect("manual transform must hit");
    assert_eq!(h.t, manual.t);
    // the composed hit point is the manual one carried back to world space
    let back = Vec3::new(
        fx_add(fx_mul(cos_t, fx_add(manual.p.x, fx(5.0))), fx_mul(sin_t, manual.p.z)),
        manual.p.y,
        fx_sub(fx_mul(cos_t, manual.p.z), fx_mul(sin_t, fx_add(manual.p.x, fx(5.0)))),
    );
    assert!(approx(h.p.x, back.x, 8));
    assert!(approx(h.p.y, back.y, 8));
    assert!(approx(h.p.z, back.z, 8));
}
