//! Spheres, still and moving, with the analytic quadratic intersection.

use vstd::prelude::*;
use crate::fx::{FX_ONE, FX_INF, FX_EPS, FX_PI, FX_TWO_PI};
use crate::fx::{fx_add, fx_sub, fx_neg, fx_mul, fx_div, fx_sqrt, fx_acos, fx_atan};
use crate::fx::{sat_s, fx_mul_s, fx_div_s, fx_sqrt_s, fx_acos_s, fx_atan_s, fx_ok};
use crate::vec3::{Vec3, v3_sub_s, v3_div_s, v3_dot_s, v3_len_sq_s, v3_ok};
use crate::ray::{Ray, ray_at_s};
use crate::hittable::{HitRecord, is_front_face_s, face_normal_s};
use crate::onb::Onb;
use crate::rng::random_unit;

verus! {

/// A sphere with its material's index in the scene's material table.
#[derive(Clone, Copy, Debug, PartialEq, Eq, Structural)]
pub struct Sphere {
    pub center: Vec3,
    pub radius: i64,
    pub mat: usize,
}

/// Spherical texture coordinates of a point on the unit sphere:
/// polar angle from the arccosine of `-y`, azimuth from the arctangent of
/// `-z / x` shifted by pi, both scaled into `[0, 1]`.
pub open spec fn sphere_uv_s(p: Vec3) -> (int, int) {
    let theta = fx_acos_s(sat_s(-p.y));
    let phi = sat_s(fx_atan_s(fx_div_s(sat_s(-p.z), p.x as int)) + FX_PI);
    (fx_div_s(phi, FX_TWO_PI as int), fx_div_s(theta, FX_PI as int))
}

/// The record a sphere produces for a hit at parameter `t`.
pub open spec fn sphere_record_s(s: Sphere, r: Ray, t: int) -> HitRecord {
    let p = ray_at_s(r, t);
    let outward = v3_div_s(v3_sub_s(p, s.center), s.radius as int);
    let uv = sphere_uv_s(outward);
    HitRecord {
        p,
        normal: face_normal_s(r, outward),
        t: t as i64,
        mat: s.mat,
        front_face: is_front_face_s(r, outward),
        u: uv.0 as i64,
        v: uv.1 as i64,
    }
}

/// The quadratic sphere intersection: of the two roots, the smaller one
/// strictly inside `(t_min, t_max)` is preferred, else the larger.
pub open spec fn sphere_hit_s(s: Sphere, r: Ray, t_min: int, t_max: int) -> Option<HitRecord> {
    let oc = v3_sub_s(r.orig, s.center);
    let a = v3_len_sq_s(r.dir);
    let half_b = v3_dot_s(r.dir, oc);
    let c = sat_s(v3_len_sq_s(oc) - fx_mul_s(s.radius as int, s.radius as int));
    let disc = sat_s(fx_mul_s(half_b, half_b) - fx_mul_s(a, c));
    if disc > 0 {
        let root = fx_sqrt_s(disc);
        let t1 = fx_div_s(sat_s(-half_b - root), a);
        if t_min < t1 && t1 < t_max {
            Some(sphere_record_s(s, r, t1))
        } else {
            let t2 = fx_div_s(sat_s(-half_b + root), a);
            if t_min < t2 && t2 < t_max {
                Some(sphere_record_s(s, r, t2))
            } else {
                None
            }
        }
    } else {
        None
    }
}

/// The sampling density of a sphere seen from `o`: the reciprocal of the
/// solid angle of its visible cone, zero when the probe ray misses.
pub open spec fn sphere_pdf_value_s(s: Sphere, o: Vec3, v: Vec3) -> int {
    let probe = Ray { orig: o, dir: v, time: 0i64 };
    if sphere_hit_s(s, probe, FX_EPS as int, FX_INF as int) is Some {
        let ctm = fx_sqrt_s(sat_s(
            (FX_ONE as int) - fx_div_s(
                fx_mul_s(s.radius as int, s.radius as int),
                v3_len_sq_s(v3_sub_s(s.center, o)),
            ),
        ));
        let solid_angle = fx_mul_s(FX_TWO_PI as int, sat_s((FX_ONE as int) - ctm));
        fx_div_s(FX_ONE as int, solid_angle)
    } else {
        0
    }
}

impl Sphere {
    /// Build a sphere.
    pub fn new(center: Vec3, radius: i64, mat: usize) -> (r: Sphere)
        ensures
            r == (Sphere { center, radius, mat }),
    {
        Sphere { center, radius, mat }
    }

    /// Texture coordinates for a point on the unit sphere.
    pub fn get_sphere_uv(p: Vec3) -> (uv: (i64, i64))
        ensures
            (uv.0 as int, uv.1 as int) == sphere_uv_s(p),
    {
        let theta = fx_acos(fx_neg(p.y));
        let phi = fx_add(fx_atan(fx_div(fx_neg(p.z), p.x)), FX_PI);
        (fx_div(phi, FX_TWO_PI), fx_div(theta, FX_PI))
    }

    /// The record for a hit at parameter `t`.
    fn make_record(&self, r: &Ray, t: i64) -> (rec: HitRecord)
        ensures
            rec == sphere_record_s(*self, *r, t as int),
    {
        let p = r.at(t);
        let outward = p.sub(&self.center).divide(self.radius);
        let mut rec = HitRecord::new(p, Vec3::zero(), t, self.mat, false);
        rec.set_face_normal(r, outward);
        let uv = Self::get_sphere_uv(outward);
        rec.u = uv.0;
        rec.v = uv.1;
        rec
    }

    /// Nearest intersection strictly within `(t_min, t_max)`.
    pub fn hit(&self, r: &Ray, t_min: i64, t_max: i64) -> (res: Option<HitRecord>)
        ensures
            res == sphere_hit_s(*self, *r, t_min as int, t_max as int),
    {
        let oc = r.orig.sub(&self.center);
        let a = r.dir.len_squared();
        let half_b = Vec3::dot(r.dir, oc);
        let c = fx_sub(oc.len_squared(), fx_mul(self.radius, self.radius));
        let disc = fx_sub(fx_mul(half_b, half_b), fx_mul(a, c));
        if disc > 0 {
            let root = fx_sqrt(disc);
            let t = fx_div(fx_sub(fx_neg(half_b), root), a);
            if t > t_min && t < t_max {
                return Some(self.make_record(r, t));
            }
            let t = fx_div(fx_add(fx_neg(half_b), root), a);
            if t > t_min && t < t_max {
                return Some(self.make_record(r, t));
            }
            None
        } else {
            None
        }
    }

    /// The box `center ± radius` in every axis.
    pub fn bounding_box(&self) -> (bb: crate::aabb::AABB)
        ensures
            bb.minimum == v3_sub_s(self.center,
                Vec3 { x: self.radius, y: self.radius, z: self.radius }),
            bb.maximum == crate::vec3::v3_add_s(self.center,
                Vec3 { x: self.radius, y: self.radius, z: self.radius }),
    {
        let rv = Vec3::new(self.radius, self.radius, self.radius);
        crate::aabb::AABB::new(self.center.sub(&rv), self.center.add(&rv))
    }

    /// The sampling density toward this sphere of the direction `v` from `o`.
    pub fn pdf_value(&self, o: &Vec3, v: &Vec3) -> (res: i64)
        ensures
            res == sphere_pdf_value_s(*self, *o, *v),
            fx_ok(res as int),
    {
        let probe = Ray::new(*o, *v, 0);
        if self.hit(&probe, FX_EPS, FX_INF).is_some() {
            let ctm = fx_sqrt(fx_sub(
                FX_ONE,
                fx_div(fx_mul(self.radius, self.radius), self.center.sub(o).len_squared()),
            ));
            let solid_angle = fx_mul(FX_TWO_PI, fx_sub(FX_ONE, ctm));
            fx_div(FX_ONE, solid_angle)
        } else {
            0
        }
    }

    /// Draw a direction from `o` into the cone the sphere subtends there:
    /// a cone sample carried into the basis around the line of centers.
    pub fn random(&self, o: Vec3) -> (res: Vec3)
        ensures
            v3_ok(res),
            sphere_sample_ok_s(*self, o, res),
    {
        let direction = self.center.sub(&o);
        let distance_squared = direction.len_squared();
        let uvw = Onb::build_from_w(&direction);
        let smp = random_to_sphere(self.radius, distance_squared);
        let res = uvw.local1(&smp);
        proof {
            let (r1, r2) = choose|r1: i64, r2: i64| 0 <= r1 < FX_ONE && 0 <= r2 < FX_ONE
                && smp == #[trigger] to_sphere_direction_s(self.radius as int,
                    distance_squared as int, r1 as int, r2 as int);
            assert(res == crate::onb::onb_local_s(
                crate::onb::onb_from_w_s(v3_sub_s(self.center, o)),
                to_sphere_direction_s(self.radius as int,
                    v3_len_sq_s(v3_sub_s(self.center, o)), r1 as int, r2 as int)));
        }
        res
    }
}

/// The cone-sampling construction applied to two unit draws: `z` is
/// interpolated between the cone cosine and one by `r2`, and `(x, y)` lie
/// on the matching circle at angle `2 pi r1`.
pub open spec fn to_sphere_direction_s(radius: int, distance_squared: int, r1: int, r2: int)
    -> Vec3 {
    let ctm = fx_sqrt_s(sat_s(
        (FX_ONE as int) - fx_div_s(fx_mul_s(radius, radius), distance_squared)));
    let z = sat_s((FX_ONE as int) + fx_mul_s(r2, sat_s(ctm - (FX_ONE as int))));
    let phi = fx_mul_s(FX_TWO_PI as int, r1);
    let w = fx_sqrt_s(sat_s((FX_ONE as int) - fx_mul_s(z, z)));
    Vec3 {
        x: fx_mul_s(crate::fx::fx_cos_s(phi), w) as i64,
        y: fx_mul_s(crate::fx::fx_sin_s(phi), w) as i64,
        z: z as i64,
    }
}

/// A drawn direction of a sphere light: a cone sample for the sphere's
/// radius at the squared distance of `o`, carried into the basis around the
/// line of centers.
pub open spec fn sphere_sample_ok_s(s: Sphere, o: Vec3, res: Vec3) -> bool {
    exists|r1: i64, r2: i64| 0 <= r1 < FX_ONE && 0 <= r2 < FX_ONE
        && res == crate::onb::onb_local_s(
            crate::onb::onb_from_w_s(v3_sub_s(s.center, o)),
            #[trigger] to_sphere_direction_s(s.radius as int,
                v3_len_sq_s(v3_sub_s(s.center, o)), r1 as int, r2 as int))
}

/// A random direction inside the cone subtended by a sphere of the given
/// radius at the given squared distance.
pub fn random_to_sphere(radius: i64, distance_squared: i64) -> (res: Vec3)
    ensures
        v3_ok(res),
        exists|r1: i64, r2: i64| 0 <= r1 < FX_ONE && 0 <= r2 < FX_ONE
            && res == #[trigger] to_sphere_direction_s(radius as int, distance_squared as int,
                r1 as int, r2 as int),
{
    let r1 = random_unit();
    let r2 = random_unit();
    let ctm = fx_sqrt(fx_sub(FX_ONE, fx_div(fx_mul(radius, radius), distance_squared)));
    let z = fx_add(FX_ONE, fx_mul(r2, fx_sub(ctm, FX_ONE)));
    let phi = fx_mul(FX_TWO_PI, r1);
    let w = fx_sqrt(fx_sub(FX_ONE, fx_mul(z, z)));
    let x = fx_mul(crate::fx::fx_cos(phi), w);
    let y = fx_mul(crate::fx::fx_sin(phi), w);
    let res = Vec3::new(x, y, z);
    proof {
        assert(res == to_sphere_direction_s(radius as int, distance_squared as int,
            r1 as int, r2 as int));
    }
    res
}

/// A sphere whose center moves linearly between two keyframes.
#[derive(Clone, Copy, Debug, PartialEq, Eq, Structural)]
pub struct MovingSphere {
    pub center0: Vec3,
    pub center1: Vec3,
    pub time0: i64,
    pub time1: i64,
    pub radius: i64,
    pub mat: usize,
}

/// The interpolated center at a given time.
pub open spec fn moving_center_s(s: MovingSphere, time: int) -> Vec3 {
    crate::vec3::v3_add_s(
        s.center0,
        v3_div_s(
            crate::vec3::v3_scale_s(v3_sub_s(s.center1, s.center0), sat_s(time - s.time0)),
            sat_s(s.time1 - s.time0),
        ),
    )
}

/// The moving sphere at the ray's own time behaves as a still sphere there.
pub open spec fn moving_sphere_hit_s(s: MovingSphere, r: Ray, t_min: int, t_max: int)
    -> Option<HitRecord> {
    sphere_hit_s(
        Sphere { center: moving_center_s(s, r.time as int), radius: s.radius, mat: s.mat },
        r, t_min, t_max,
    )
}

impl MovingSphere {
    /// Build a moving sphere from its two keyframes.
    pub fn new(cen0: Vec3, cen1: Vec3, time0: i64, time1: i64, radius: i64, mat: usize)
        -> (r: MovingSphere)
        ensures
            r == (MovingSphere { center0: cen0, center1: cen1, time0, time1, radius, mat }),
    {
        MovingSphere { center0: cen0, center1: cen1, time0, time1, radius, mat }
    }

    /// The center at a given time, interpolated between the keyframes.
    pub fn center(&self, time: i64) -> (c: Vec3)
        ensures
            c == moving_center_s(*self, time as int),
            v3_ok(c),
    {
        self.center0.add(
            &self.center1.sub(&self.center0)
                .scale(fx_sub(time, self.time0))
                .divide(fx_sub(self.time1, self.time0)),
        )
    }

    /// Nearest intersection strictly within `(t_min, t_max)`, with the sphere
    /// placed at the ray's time.
    pub fn hit(&self, r: &Ray, t_min: i64, t_max: i64) -> (res: Option<HitRecord>)
        ensures
            res == moving_sphere_hit_s(*self, *r, t_min as int, t_max as int),
    {
        let s = Sphere::new(self.center(r.time), self.radius, self.mat);
        s.hit(r, t_min, t_max)
    }

    /// The union of the boxes at the two ends of the time interval.
    pub fn bounding_box(&self, time0: i64, time1: i64) -> (bb: crate::aabb::AABB)
        ensures
            bb == crate::aabb::aabb_union_s(
                moving_box_at_s(*self, time0 as int), moving_box_at_s(*self, time1 as int)),
    {
        let rv = Vec3::new(self.radius, self.radius, self.radius);
        let c0 = self.center(time0);
        let c1 = self.center(time1);
        let box0 = crate::aabb::AABB::new(c0.sub(&rv), c0.add(&rv));
        let box1 = crate::aabb::AABB::new(c1.sub(&rv), c1.add(&rv));
        crate::aabb::AABB::surrounding_box(box0, box1)
    }
}

/// The box of a moving sphere frozen at one time.
pub open spec fn moving_box_at_s(s: MovingSphere, time: int) -> crate::aabb::AABB {
    let c = moving_center_s(s, time);
    let rv = Vec3 { x: s.radius, y: s.radius, z: s.radius };
    crate::aabb::AABB { minimum: v3_sub_s(c, rv), maximum: crate::vec3::v3_add_s(c, rv) }
}

/// A radius or distance small enough for the quadratic arithmetic to stay
/// exact.
pub open spec fn span_ok(x: int) -> bool {
    0 < x <= 0x4000000000
}

/// The round trip of a head-on sphere intersection: a ray cast from outside
/// straight at the center, along the negative z axis with unit direction,
/// hits; the reported point lies at distance `radius` from the center up to
/// the fixed-point tolerance, on the near side; and the reported normal
/// opposes the ray.
pub proof fn lemma_sphere_round_trip(s: Sphere, r: Ray, d: int, t_min: int, t_max: int)
    requires
        -0x4000000000 <= s.center.x <= 0x4000000000,
        -0x4000000000 <= s.center.y <= 0x4000000000,
        -0x4000000000 <= s.center.z <= 0x4000000000,
        258 <= s.radius,
        span_ok(s.radius as int),
        span_ok(d),
        (s.radius as int) < d,
        r.orig.x == s.center.x,
        r.orig.y == s.center.y,
        r.orig.z as int == s.center.z + d,
        r.dir == (Vec3 { x: 0i64, y: 0i64, z: (-65536) as i64 }),
        0 <= t_min,
        t_min < d - (s.radius as int),
        t_max > d - (s.radius as int) + 257,
    ensures
        sphere_hit_s(s, r, t_min, t_max) matches Some(h) && {
            &&& h.p.x == s.center.x
            &&& h.p.y == s.center.y
            &&& (s.radius as int) - 257 <= h.p.z - s.center.z <= s.radius as int
            &&& h.front_face
            &&& v3_dot_s(r.dir, h.normal) < 0
        },
{
    let rad = s.radius as int;
    let sc = 65536int;
    let oc = v3_sub_s(r.orig, s.center);
    assert(oc == (Vec3 { x: 0i64, y: 0i64, z: d as i64 }));
    // the quadratic coefficients evaluate exactly
    let a = v3_len_sq_s(r.dir);
    assert((-65536) * (-65536) == 65536 * 65536) by (nonlinear_arith);
    crate::fx::lemma_div_t_exact(sc, sc);
    assert(a == sc);
    let half_b = v3_dot_s(r.dir, oc);
    assert((-65536) * d == (-d) * 65536) by (nonlinear_arith);
    crate::fx::lemma_div_t_exact(-d, sc);
    assert(half_b == -d);
    let qd = crate::fx::div_t(d * d, sc);
    let qr = crate::fx::div_t(rad * rad, sc);
    assert(d * d <= (0x4000000000 * 0x4000000000) as int) by (nonlinear_arith)
        requires
            0 < d <= 0x4000000000,
    ;
    assert(rad * rad <= (0x4000000000 * 0x4000000000) as int) by (nonlinear_arith)
        requires
            0 < rad <= 0x4000000000,
    ;
    assert(d * d >= 0) by (nonlinear_arith);
    assert(rad * rad >= 0) by (nonlinear_arith);
    assert(qd == (d * d) / sc);
    assert(qr == (rad * rad) / sc);
    vstd::arithmetic::div_mod::lemma_div_is_ordered(d * d, (0x4000000000 * 0x4000000000) as int, sc);
    vstd::arithmetic::div_mod::lemma_div_is_ordered(rad * rad, (0x4000000000 * 0x4000000000) as int, sc);
    vstd::arithmetic::div_mod::lemma_div_is_ordered(0, d * d, sc);
    vstd::arithmetic::div_mod::lemma_div_is_ordered(0, rad * rad, sc);
    assert(v3_len_sq_s(oc) == qd);
    let c = sat_s(v3_len_sq_s(oc) - fx_mul_s(rad, rad));
    assert(fx_mul_s(rad, rad) == qr);
    assert(c == qd - qr);
    // the discriminant collapses to the scaled squared radius
    crate::fx::lemma_fx_mul_one(c);
    assert(fx_mul_s(sc, c) == fx_mul_s(c, sc)) by {
        assert(sc * c == c * sc) by (nonlinear_arith);
    }
    assert((-d) * (-d) == d * d) by (nonlinear_arith);
    let disc = sat_s(fx_mul_s(half_b, half_b) - fx_mul_s(a, c));
    assert(fx_mul_s(half_b, half_b) == qd);
    assert(disc == qr);
    // the radius is large enough that the discriminant is positive
    assert(rad * rad >= 65536) by (nonlinear_arith)
        requires
            rad >= 256,
    ;
    vstd::arithmetic::div_mod::lemma_div_is_ordered(sc, rad * rad, sc);
    crate::fx::lemma_div_t_exact(1, sc);
    assert(sc / sc == 1);
    assert(qr >= 1);
    assert(disc > 0);
    // the root is the radius, up to the fixed-point tolerance
    let root = fx_sqrt_s(disc);
    assert(root == crate::fx::sqrt_floor(qr * sc));
    crate::fx::lemma_sqrt_floor(qr * sc);
    vstd::arithmetic::div_mod::lemma_fundamental_div_mod(rad * rad, sc);
    vstd::arithmetic::div_mod::lemma_mod_bound(rad * rad, sc);
    assert(qr * sc == sc * qr) by (nonlinear_arith);
    assert(qr * sc <= rad * rad);
    assert(qr * sc > rad * rad - sc);
    assert(root <= rad) by {
        if root > rad {
            assert(root * root >= (rad + 1) * (rad + 1)) by (nonlinear_arith)
                requires
                    root >= rad + 1,
                    rad >= 0,
            ;
            assert((rad + 1) * (rad + 1) > rad * rad) by (nonlinear_arith)
                requires
                    rad >= 0,
            ;
        }
    }
    assert(root >= rad - 257) by {
        if root < rad - 257 {
            assert((root + 1) * (root + 1) <= (rad - 257) * (rad - 257)) by (nonlinear_arith)
                requires
                    0 <= root + 1 <= rad - 257,
            ;
            assert((rad - 257) * (rad - 257) <= rad * rad - 66563) by (nonlinear_arith)
                requires
                    rad >= 258,
            ;
            assert(false);
        }
    }
    assert(root >= 1);
    // the near root is accepted
    let t1 = fx_div_s(sat_s(-half_b - root), a);
    crate::fx::lemma_div_t_exact(d - root, sc);
    assert(t1 == d - root);
    assert(t_min < t1 && t1 < t_max);
    let h = sphere_record_s(s, r, t1);
    assert(sphere_hit_s(s, r, t_min, t_max) == Some(h));
    // the hit point sits at distance `root` along z
    let p = ray_at_s(r, t1);
    assert(fx_mul_s(0, t1) == 0) by {
        assert(0 * t1 == 0) by (nonlinear_arith);
    }
    assert((-65536) * t1 == (-t1) * 65536) by (nonlinear_arith);
    crate::fx::lemma_div_t_exact(-t1, sc);
    assert(fx_mul_s(-65536, t1) == -t1);
    assert(p.x == s.center.x && p.y == s.center.y);
    assert(p.z == s.center.z + root);
    // the outward normal has a positive z component and nothing else
    let outward = v3_div_s(v3_sub_s(p, s.center), rad);
    assert(crate::fx::div_t(0, rad) == 0);
    assert(fx_div_s(0, rad) == 0);
    let w = fx_div_s(root, rad);
    assert(root * sc >= rad) by (nonlinear_arith)
        requires
            root >= rad - 257,
            rad >= 258,
            sc == 65536,
    ;
    assert(root * sc <= (0x4000000000 * 65536) as int) by (nonlinear_arith)
        requires
            0 <= root <= 0x4000000000,
            sc == 65536,
    ;
    vstd::arithmetic::div_mod::lemma_div_is_ordered(rad, root * sc, rad);
    crate::fx::lemma_div_t_exact(1, rad);
    assert(rad / rad == 1);
    assert((root * sc) / rad >= 1);
    assert(w >= 1);
    assert(outward.x == 0 && outward.y == 0 && outward.z == w);
    // the stored normal opposes the ray
    assert((-65536) * w == (-w) * 65536) by (nonlinear_arith);
    crate::fx::lemma_div_t_exact(-w, sc);
    assert(fx_mul_s(-65536, w as i64 as int) == -w);
    assert(v3_dot_s(r.dir, outward) == -w);
    assert(crate::hittable::is_front_face_s(r, outward));
    assert(h.normal == outward);
    assert(h.p == p);
}

} // verus!
