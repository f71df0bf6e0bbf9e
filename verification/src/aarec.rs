//! Axis-aligned rectangles and triangles.

use vstd::prelude::*;
use crate::fx::{FX_ONE, FX_INF, FX_EPS, FX_MILLI, FX_TWO};
use crate::fx::{fx_add, fx_sub, fx_mul, fx_div, fx_abs, min3, max3};
use crate::fx::{sat_s, abs_i, fx_mul_s, fx_div_s, fx_ok, min_i, max_i};
use crate::vec3::{Vec3, v3_sub_s, v3_dot_s, v3_cross_s, v3_len_s, v3_len_sq_s, v3_unit_s, v3_ok};
use crate::ray::{Ray, ray_at_s};
use crate::hittable::{HitRecord, is_front_face_s, face_normal_s};
use crate::aabb::AABB;
use crate::rng::random_range_or_min;

verus! {

/// A rectangle in a plane of constant `z`.
#[derive(Clone, Copy, Debug, PartialEq, Eq, Structural)]
pub struct XyRect {
    pub x0: i64,
    pub x1: i64,
    pub y0: i64,
    pub y1: i64,
    pub k: i64,
    pub mat: usize,
}

/// A rectangle in a plane of constant `y`.
#[derive(Clone, Copy, Debug, PartialEq, Eq, Structural)]
pub struct XzRect {
    pub x0: i64,
    pub x1: i64,
    pub z0: i64,
    pub z1: i64,
    pub k: i64,
    pub mat: usize,
}

/// A rectangle in a plane of constant `x`.
#[derive(Clone, Copy, Debug, PartialEq, Eq, Structural)]
pub struct YzRect {
    pub y0: i64,
    pub y1: i64,
    pub z0: i64,
    pub z1: i64,
    pub k: i64,
    pub mat: usize,
}

/// A hit of a plane-aligned rectangle: the crossing parameter of the fixed
/// axis, rejected outside `[t_min, t_max]` or outside the planar bounds.
/// The record interpolates texture coordinates over the rectangle.
pub open spec fn rect_hit_s(
    a0: int, a1: int, b0: int, b1: int, k: int, mat: int,
    orig_k: int, dir_k: int, orig_a: int, dir_a: int, orig_b: int, dir_b: int,
    outward: Vec3, r: Ray, t_min: int, t_max: int,
) -> Option<HitRecord> {
    let t = fx_div_s(sat_s(k - orig_k), dir_k);
    if t < t_min || t > t_max {
        None
    } else {
        let a = sat_s(orig_a + fx_mul_s(t, dir_a));
        let b = sat_s(orig_b + fx_mul_s(t, dir_b));
        if a < a0 || a > a1 || b < b0 || b > b1 {
            None
        } else {
            Some(HitRecord {
                p: ray_at_s(r, t),
                normal: face_normal_s(r, outward),
                t: t as i64,
                mat: mat as usize,
                front_face: is_front_face_s(r, outward),
                u: fx_div_s(sat_s(a - a0), sat_s(a1 - a0)) as i64,
                v: fx_div_s(sat_s(b - b0), sat_s(b1 - b0)) as i64,
            })
        }
    }
}

/// The sampling density of a rectangle from `o` along `v`:
/// squared distance over cosine times area, zero when the probe misses.
pub open spec fn rect_pdf_s(
    hit: Option<HitRecord>, area: int, o: Vec3, v: Vec3,
) -> int {
    match hit {
        Some(rec) => {
            let distance_squared = fx_mul_s(fx_mul_s(rec.t as int, rec.t as int), v3_len_sq_s(v));
            let cosine = fx_div_s(sat_s(abs_i(v3_dot_s(v, rec.normal))), v3_len_s(v));
            fx_div_s(distance_squared, fx_mul_s(cosine, area))
        },
        None => 0,
    }
}

/// A drawn direction of the z-plane rectangle: it points from `o` to some
/// point of the rectangle (lower bounds inclusive; a degenerate extent
/// collapses to its lower corner).
pub open spec fn rect_xy_sample_ok_s(rc: XyRect, o: Vec3, res: Vec3) -> bool {
    exists|a: i64, b: i64| (rc.x0 <= a && (a < rc.x1 || a == rc.x0))
        && (rc.y0 <= b && (b < rc.y1 || b == rc.y0))
        && res == #[trigger] v3_sub_s(Vec3 { x: a, y: b, z: rc.k }, o)
}

/// A drawn direction of the y-plane rectangle.
pub open spec fn rect_xz_sample_ok_s(rc: XzRect, o: Vec3, res: Vec3) -> bool {
    exists|a: i64, b: i64| (rc.x0 <= a && (a < rc.x1 || a == rc.x0))
        && (rc.z0 <= b && (b < rc.z1 || b == rc.z0))
        && res == #[trigger] v3_sub_s(Vec3 { x: a, y: rc.k, z: b }, o)
}

/// A drawn direction of the x-plane rectangle.
pub open spec fn rect_yz_sample_ok_s(rc: YzRect, o: Vec3, res: Vec3) -> bool {
    exists|a: i64, b: i64| (rc.y0 <= a && (a < rc.y1 || a == rc.y0))
        && (rc.z0 <= b && (b < rc.z1 || b == rc.z0))
        && res == #[trigger] v3_sub_s(Vec3 { x: rc.k, y: a, z: b }, o)
}

/// Shared executable body for the three rectangle orientations.
#[allow(clippy::too_many_arguments)]
fn rect_hit(
    a0: i64, a1: i64, b0: i64, b1: i64, k: i64, mat: usize,
    orig_k: i64, dir_k: i64, orig_a: i64, dir_a: i64, orig_b: i64, dir_b: i64,
    outward: Vec3, r: &Ray, t_min: i64, t_max: i64,
) -> (res: Option<HitRecord>)
    ensures
        res == rect_hit_s(a0 as int, a1 as int, b0 as int, b1 as int, k as int, mat as int,
            orig_k as int, dir_k as int, orig_a as int, dir_a as int, orig_b as int, dir_b as int,
            outward, *r, t_min as int, t_max as int),
{
    let t = fx_div(fx_sub(k, orig_k), dir_k);
    if t < t_min || t > t_max {
        return None;
    }
    let a = fx_add(orig_a, fx_mul(t, dir_a));
    let b = fx_add(orig_b, fx_mul(t, dir_b));
    if a < a0 || a > a1 || b < b0 || b > b1 {
        return None;
    }
    let mut rec = HitRecord::new(r.at(t), Vec3::zero(), t, mat, false);
    rec.set_face_normal(r, outward);
    rec.u = fx_div(fx_sub(a, a0), fx_sub(a1, a0));
    rec.v = fx_div(fx_sub(b, b0), fx_sub(b1, b0));
    Some(rec)
}

/// The density shared by the three orientations, from a probe hit.
fn rect_pdf(hit: Option<HitRecord>, area: i64, o: &Vec3, v: &Vec3) -> (res: i64)
    ensures
        res == rect_pdf_s(hit, area as int, *o, *v),
        fx_ok(res as int),
{
    match hit {
        Some(rec) => {
            let distance_squared = fx_mul(fx_mul(rec.t, rec.t), v.squared_length());
            let cosine = fx_div(fx_abs(Vec3::dot(*v, rec.normal)), v.len());
            fx_div(distance_squared, fx_mul(cosine, area))
        },
        None => 0,
    }
}

impl XyRect {
    /// Build a rectangle spanning `[x0,x1] × [y0,y1]` in the plane `z = k`.
    pub fn new(x0: i64, x1: i64, y0: i64, y1: i64, k: i64, mat: usize) -> (r: XyRect)
        ensures
            r == (XyRect { x0, x1, y0, y1, k, mat }),
    {
        XyRect { x0, x1, y0, y1, k, mat }
    }

    /// The hit of this rectangle, as `rect_hit_s` instantiated for its plane.
    pub open spec fn hit_s(self, r: Ray, t_min: int, t_max: int) -> Option<HitRecord> {
        rect_hit_s(self.x0 as int, self.x1 as int, self.y0 as int, self.y1 as int,
            self.k as int, self.mat as int,
            r.orig.z as int, r.dir.z as int, r.orig.x as int, r.dir.x as int,
            r.orig.y as int, r.dir.y as int,
            Vec3 { x: 0i64, y: 0i64, z: FX_ONE }, r, t_min, t_max)
    }

    /// Intersection within `[t_min, t_max]`.
    pub fn hit(&self, r: &Ray, t_min: i64, t_max: i64) -> (res: Option<HitRecord>)
        ensures
            res == self.hit_s(*r, t_min as int, t_max as int),
    {
        rect_hit(self.x0, self.x1, self.y0, self.y1, self.k, self.mat,
            r.orig.z, r.dir.z, r.orig.x, r.dir.x, r.orig.y, r.dir.y,
            Vec3::new(0, 0, FX_ONE), r, t_min, t_max)
    }

    /// The rectangle padded by a small epsilon along its degenerate axis.
    pub fn bounding_box(&self) -> (bb: AABB)
        ensures
            bb.minimum == (Vec3 { x: self.x0, y: self.y0, z: sat_s(self.k - FX_EPS) as i64 }),
            bb.maximum == (Vec3 { x: self.x1, y: self.y1, z: sat_s(self.k + FX_EPS) as i64 }),
    {
        AABB::new(
            Vec3::new(self.x0, self.y0, fx_sub(self.k, FX_EPS)),
            Vec3::new(self.x1, self.y1, fx_add(self.k, FX_EPS)),
        )
    }

    /// Sampling density of the direction `v` from `o` toward this rectangle.
    pub fn pdf_value(&self, o: &Vec3, v: &Vec3) -> (res: i64)
        ensures
            res == rect_pdf_s(
                self.hit_s(Ray { orig: *o, dir: *v, time: 0i64 }, FX_MILLI as int, FX_INF as int),
                fx_mul_s(sat_s(self.x1 - self.x0), sat_s(self.y1 - self.y0)), *o, *v),
            fx_ok(res as int),
    {
        let probe = Ray::new(*o, *v, 0);
        let hit = self.hit(&probe, FX_MILLI, FX_INF);
        let area = fx_mul(fx_sub(self.x1, self.x0), fx_sub(self.y1, self.y0));
        rect_pdf(hit, area, o, v)
    }

    /// A direction from `o` toward a uniformly drawn point of the rectangle.
    pub fn random(&self, o: Vec3) -> (res: Vec3)
        ensures
            v3_ok(res),
            rect_xy_sample_ok_s(*self, o, res),
    {
        let a = random_range_or_min(self.x0, self.x1);
        let b = random_range_or_min(self.y0, self.y1);
        let p = Vec3::new(a, b, self.k);
        let res = p.sub(&o);
        proof {
            assert(res == v3_sub_s(Vec3 { x: a, y: b, z: self.k }, o));
        }
        res
    }
}

impl XzRect {
    /// Build a rectangle spanning `[x0,x1] × [z0,z1]` in the plane `y = k`.
    pub fn new(x0: i64, x1: i64, z0: i64, z1: i64, k: i64, mat: usize) -> (r: XzRect)
        ensures
            r == (XzRect { x0, x1, z0, z1, k, mat }),
    {
        XzRect { x0, x1, z0, z1, k, mat }
    }

    /// The hit of this rectangle, as `rect_hit_s` instantiated for its plane.
    pub open spec fn hit_s(self, r: Ray, t_min: int, t_max: int) -> Option<HitRecord> {
        rect_hit_s(self.x0 as int, self.x1 as int, self.z0 as int, self.z1 as int,
            self.k as int, self.mat as int,
            r.orig.y as int, r.dir.y as int, r.orig.x as int, r.dir.x as int,
            r.orig.z as int, r.dir.z as int,
            Vec3 { x: 0i64, y: FX_ONE, z: 0i64 }, r, t_min, t_max)
    }

    /// Intersection within `[t_min, t_max]`.
    pub fn hit(&self, r: &Ray, t_min: i64, t_max: i64) -> (res: Option<HitRecord>)
        ensures
            res == self.hit_s(*r, t_min as int, t_max as int),
    {
        rect_hit(self.x0, self.x1, self.z0, self.z1, self.k, self.mat,
            r.orig.y, r.dir.y, r.orig.x, r.dir.x, r.orig.z, r.dir.z,
            Vec3::new(0, FX_ONE, 0), r, t_min, t_max)
    }

    /// The rectangle padded by a small epsilon along its degenerate axis.
    pub fn bounding_box(&self) -> (bb: AABB)
        ensures
            bb.minimum == (Vec3 { x: self.x0, y: sat_s(self.k - FX_EPS) as i64, z: self.z0 }),
            bb.maximum == (Vec3 { x: self.x1, y: sat_s(self.k + FX_EPS) as i64, z: self.z1 }),
    {
        AABB::new(
            Vec3::new(self.x0, fx_sub(self.k, FX_EPS), self.z0),
            Vec3::new(self.x1, fx_add(self.k, FX_EPS), self.z1),
        )
    }

    /// Sampling density of the direction `v` from `o` toward this rectangle.
    pub fn pdf_value(&self, o: &Vec3, v: &Vec3) -> (res: i64)
        ensures
            res == rect_pdf_s(
                self.hit_s(Ray { orig: *o, dir: *v, time: 0i64 }, FX_MILLI as int, FX_INF as int),
                fx_mul_s(sat_s(self.x1 - self.x0), sat_s(self.z1 - self.z0)), *o, *v),
            fx_ok(res as int),
    {
        let probe = Ray::new(*o, *v, 0);
        let hit = self.hit(&probe, FX_MILLI, FX_INF);
        let area = fx_mul(fx_sub(self.x1, self.x0), fx_sub(self.z1, self.z0));
        rect_pdf(hit, area, o, v)
    }

    /// A direction from `o` toward a uniformly drawn point of the rectangle.
    pub fn random(&self, o: Vec3) -> (res: Vec3)
        ensures
            v3_ok(res),
            rect_xz_sample_ok_s(*self, o, res),
    {
        let a = random_range_or_min(self.x0, self.x1);
        let b = random_range_or_min(self.z0, self.z1);
        let p = Vec3::new(a, self.k, b);
        let res = p.sub(&o);
        proof {
            assert(res == v3_sub_s(Vec3 { x: a, y: self.k, z: b }, o));
        }
        res
    }
}

impl YzRect {
    /// Build a rectangle spanning `[y0,y1] × [z0,z1]` in the plane `x = k`.
    pub fn new(y0: i64, y1: i64, z0: i64, z1: i64, k: i64, mat: usize) -> (r: YzRect)
        ensures
            r == (YzRect { y0, y1, z0, z1, k, mat }),
    {
        YzRect { y0, y1, z0, z1, k, mat }
    }

    /// The hit of this rectangle, as `rect_hit_s` instantiated for its plane.
    pub open spec fn hit_s(self, r: Ray, t_min: int, t_max: int) -> Option<HitRecord> {
        rect_hit_s(self.y0 as int, self.y1 as int, self.z0 as int, self.z1 as int,
            self.k as int, self.mat as int,
            r.orig.x as int, r.dir.x as int, r.orig.y as int, r.dir.y as int,
            r.orig.z as int, r.dir.z as int,
            Vec3 { x: FX_ONE, y: 0i64, z: 0i64 }, r, t_min, t_max)
    }

    /// Intersection within `[t_min, t_max]`.
    pub fn hit(&self, r: &Ray, t_min: i64, t_max: i64) -> (res: Option<HitRecord>)
        ensures
            res == self.hit_s(*r, t_min as int, t_max as int),
    {
        rect_hit(self.y0, self.y1, self.z0, self.z1, self.k, self.mat,
            r.orig.x, r.dir.x, r.orig.y, r.dir.y, r.orig.z, r.dir.z,
            Vec3::new(FX_ONE, 0, 0), r, t_min, t_max)
    }

    /// The rectangle padded by a small epsilon along its degenerate axis.
    pub fn bounding_box(&self) -> (bb: AABB)
        ensures
            bb.minimum == (Vec3 { x: sat_s(self.k - FX_EPS) as i64, y: self.y0, z: self.z0 }),
            bb.maximum == (Vec3 { x: sat_s(self.k + FX_EPS) as i64, y: self.y1, z: self.z1 }),
    {
        AABB::new(
            Vec3::new(fx_sub(self.k, FX_EPS), self.y0, self.z0),
            Vec3::new(fx_add(self.k, FX_EPS), self.y1, self.z1),
        )
    }

    /// Sampling density of the direction `v` from `o` toward this rectangle.
    pub fn pdf_value(&self, o: &Vec3, v: &Vec3) -> (res: i64)
        ensures
            res == rect_pdf_s(
                self.hit_s(Ray { orig: *o, dir: *v, time: 0i64 }, FX_MILLI as int, FX_INF as int),
                fx_mul_s(sat_s(self.y1 - self.y0), sat_s(self.z1 - self.z0)), *o, *v),
            fx_ok(res as int),
    {
        let probe = Ray::new(*o, *v, 0);
        let hit = self.hit(&probe, FX_MILLI, FX_INF);
        let area = fx_mul(fx_sub(self.y1, self.y0), fx_sub(self.z1, self.z0));
        rect_pdf(hit, area, o, v)
    }

    /// A direction from `o` toward a uniformly drawn point of the rectangle.
    pub fn random(&self, o: Vec3) -> (res: Vec3)
        ensures
            v3_ok(res),
            rect_yz_sample_ok_s(*self, o, res),
    {
        let a = random_range_or_min(self.y0, self.y1);
        let b = random_range_or_min(self.z0, self.z1);
        let p = Vec3::new(self.k, a, b);
        let res = p.sub(&o);
        proof {
            assert(res == v3_sub_s(Vec3 { x: self.k, y: a, z: b }, o));
        }
        res
    }
}

/// A triangle given by its three corners.
#[derive(Clone, Copy, Debug, PartialEq, Eq, Structural)]
pub struct Triangle {
    pub a1: Vec3,
    pub a2: Vec3,
    pub a3: Vec3,
    pub mat: usize,
}

/// The area-sum interior test: a point is inside when the three sub-triangle
/// areas it forms with the corners add up to the triangle's own area, within
/// a small tolerance.
pub open spec fn triangle_inside_s(t: Triangle, point: Vec3) -> bool {
    let ap = v3_sub_s(t.a1, point);
    let bp = v3_sub_s(t.a2, point);
    let cp = v3_sub_s(t.a3, point);
    let ab = v3_sub_s(t.a1, t.a2);
    let ac = v3_sub_s(t.a1, t.a3);
    let s1 = fx_div_s(v3_len_s(v3_cross_s(ap, bp)), FX_TWO as int);
    let s2 = fx_div_s(v3_len_s(v3_cross_s(ap, cp)), FX_TWO as int);
    let s3 = fx_div_s(v3_len_s(v3_cross_s(bp, cp)), FX_TWO as int);
    let s = fx_div_s(v3_len_s(v3_cross_s(ab, ac)), FX_TWO as int);
    abs_i(sat_s(s - sat_s(sat_s(s1 + s2) + s3))) < FX_EPS
}

/// A triangle hit: the crossing of the supporting plane, accepted when the
/// crossing point passes the interior test.
pub open spec fn triangle_hit_s(tr: Triangle, r: Ray, t_min: int, t_max: int)
    -> Option<HitRecord> {
    let dir1 = v3_sub_s(tr.a2, tr.a1);
    let dir2 = v3_sub_s(tr.a3, tr.a1);
    let n = v3_cross_s(dir1, dir2);
    let b_a = v3_sub_s(tr.a1, r.orig);
    let t = fx_div_s(v3_dot_s(n, b_a), v3_dot_s(n, r.dir));
    if t < t_min || t > t_max {
        None
    } else {
        let hit = ray_at_s(r, t);
        if triangle_inside_s(tr, hit) {
            let outward = v3_unit_s(n);
            Some(HitRecord {
                p: hit,
                normal: face_normal_s(r, outward),
                t: t as i64,
                mat: tr.mat,
                front_face: is_front_face_s(r, outward),
                u: 0i64,
                v: 0i64,
            })
        } else {
            None
        }
    }
}

impl Triangle {
    /// Build a triangle from the nine corner coordinates.
    #[allow(clippy::too_many_arguments)]
    pub fn new(x1: i64, y1: i64, z1: i64, x2: i64, y2: i64, z2: i64,
        x3: i64, y3: i64, z3: i64, mat: usize) -> (r: Triangle)
        ensures
            r == (Triangle {
                a1: Vec3 { x: x1, y: y1, z: z1 },
                a2: Vec3 { x: x2, y: y2, z: z2 },
                a3: Vec3 { x: x3, y: y3, z: z3 },
                mat,
            }),
    {
        Triangle {
            a1: Vec3::new(x1, y1, z1),
            a2: Vec3::new(x2, y2, z2),
            a3: Vec3::new(x3, y3, z3),
            mat,
        }
    }

    /// The area-sum interior test.
    pub fn inside(&self, x: i64, y: i64, z: i64) -> (res: bool)
        ensures
            res == triangle_inside_s(*self, Vec3 { x, y, z }),
    {
        let point = Vec3::new(x, y, z);
        let ap = self.a1.sub(&point);
        let bp = self.a2.sub(&point);
        let cp = self.a3.sub(&point);
        let ab = self.a1.sub(&self.a2);
        let ac = self.a1.sub(&self.a3);
        let s1 = fx_div(Vec3::cross(ap, bp).len(), FX_TWO);
        let s2 = fx_div(Vec3::cross(ap, cp).len(), FX_TWO);
        let s3 = fx_div(Vec3::cross(bp, cp).len(), FX_TWO);
        let s = fx_div(Vec3::cross(ab, ac).len(), FX_TWO);
        fx_abs(fx_sub(s, fx_add(fx_add(s1, s2), s3))) < FX_EPS
    }

    /// Intersection within `[t_min, t_max]`.
    pub fn hit(&self, r: &Ray, t_min: i64, t_max: i64) -> (res: Option<HitRecord>)
        ensures
            res == triangle_hit_s(*self, *r, t_min as int, t_max as int),
    {
        let dir1 = self.a2.sub(&self.a1);
        let dir2 = self.a3.sub(&self.a1);
        let n = Vec3::cross(dir1, dir2);
        let b_a = self.a1.sub(&r.orig);
        let t = fx_div(Vec3::dot(n, b_a), Vec3::dot(n, r.dir));
        if t < t_min || t > t_max {
            return None;
        }
        let hit = r.at(t);
        if self.inside(hit.x, hit.y, hit.z) {
            let mut rec = HitRecord::new(hit, Vec3::zero(), t, self.mat, false);
            rec.set_face_normal(r, n.unit());
            Some(rec)
        } else {
            None
        }
    }

    /// The corner extents padded by a small epsilon in every axis.
    pub fn bounding_box(&self) -> (bb: AABB)
        ensures
            bb.minimum.x == sat_s(min_i(min_i(self.a1.x as int, self.a2.x as int),
                self.a3.x as int) - FX_EPS),
            bb.minimum.y == sat_s(min_i(min_i(self.a1.y as int, self.a2.y as int),
                self.a3.y as int) - FX_EPS),
            bb.minimum.z == sat_s(min_i(min_i(self.a1.z as int, self.a2.z as int),
                self.a3.z as int) - FX_EPS),
            bb.maximum.x == sat_s(max_i(max_i(self.a1.x as int, self.a2.x as int),
                self.a3.x as int) + FX_EPS),
            bb.maximum.y == sat_s(max_i(max_i(self.a1.y as int, self.a2.y as int),
                self.a3.y as int) + FX_EPS),
            bb.maximum.z == sat_s(max_i(max_i(self.a1.z as int, self.a2.z as int),
                self.a3.z as int) + FX_EPS),
    {
        let lo = Vec3::new(
            fx_sub(min3(self.a1.x, self.a2.x, self.a3.x), FX_EPS),
            fx_sub(min3(self.a1.y, self.a2.y, self.a3.y), FX_EPS),
            fx_sub(min3(self.a1.z, self.a2.z, self.a3.z), FX_EPS),
        );
        let hi = Vec3::new(
            fx_add(max3(self.a1.x, self.a2.x, self.a3.x), FX_EPS),
            fx_add(max3(self.a1.y, self.a2.y, self.a3.y), FX_EPS),
            fx_add(max3(self.a1.z, self.a2.z, self.a3.z), FX_EPS),
        );
        AABB::new(lo, hi)
    }
}

} // verus!
