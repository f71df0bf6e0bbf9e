//! The scene-object tree.
//!
//! The hittable variants form one closed enum: primitives at the leaves and
//! modifier nodes — flat lists, the six-sided prism, face flipping,
//! translation, rotation about the y axis, a participating medium and the
//! nodes of the bounding-volume hierarchy — wrapping child objects.
//!
//! Every query has a mirror specification over the mathematical integers.
//! The participating medium draws a random free-flight distance, so its hit
//! is not a function of its inputs; `is_deterministic_s` names the fragment
//! on which `hit` is pinned exactly.

use vstd::prelude::*;
use crate::fx::{FX_ONE, FX_INF, FX_EPS};
use crate::fx::{fx_add, fx_sub, fx_mul, fx_div, fx_neg, usize_to_fx, fmin, fmax};
use crate::fx::{sat_s, fx_mul_s, fx_div_s, fx_ok, min_i, max_i};
use crate::vec3::{Vec3, v3_add_s, v3_sub_s, v3_ok};
use crate::ray::Ray;
use crate::hittable::{HitRecord, is_front_face_s, face_normal_s};
use crate::aabb::{AABB, aabb_union_s, aabb_hit_s};
use crate::sphere::{Sphere, MovingSphere, sphere_hit_s, moving_sphere_hit_s,
    sphere_pdf_value_s, sphere_sample_ok_s, moving_box_at_s};
use crate::aarec::{XyRect, XzRect, YzRect, Triangle, triangle_hit_s, rect_pdf_s,
    rect_xy_sample_ok_s, rect_xz_sample_ok_s, rect_yz_sample_ok_s};
use crate::rng::{random_u64, random_unit};

verus! {

/// A flat collection of objects, scanned in order for the nearest hit.
pub struct HittableList {
    pub objects: Vec<Object>,
}

/// A rectangular prism held as its six axis-aligned faces.
pub struct Box_ {
    pub box_min: Vec3,
    pub box_max: Vec3,
    pub sides: HittableList,
}

/// Inverts the face orientation of whatever its child reports.
pub struct FlipFace {
    pub child: Box<Object>,
}

/// Shifts its child by a fixed offset.
pub struct Translate {
    pub offset: Vec3,
    pub child: Box<Object>,
}

/// Rotates its child about the y axis; the sine and cosine of the angle are
/// fixed at construction, as is the rotated bounding box.
pub struct RotateY {
    pub sin_theta: i64,
    pub cos_theta: i64,
    pub has_box: bool,
    pub bbox: AABB,
    pub child: Box<Object>,
}

/// A homogeneous participating medium bounded by a convex child; scattering
/// points are drawn from an exponential free-flight distribution.
pub struct ConstantMedium {
    pub boundary: Box<Object>,
    pub neg_inv_density: i64,
    pub phase: usize,
}

/// An interior node of the bounding-volume hierarchy.
pub struct BvhNode {
    pub left: Box<Object>,
    pub right: Box<Object>,
    pub box1: AABB,
}

/// Any scene object.
pub enum Object {
    Sphere(Sphere),
    MovingSphere(MovingSphere),
    XyRect(XyRect),
    XzRect(XzRect),
    YzRect(YzRect),
    Triangle(Triangle),
    Prism(Box_),
    List(HittableList),
    Flip(FlipFace),
    Translated(Translate),
    Rotated(RotateY),
    Medium(ConstantMedium),
    Bvh(BvhNode),
}

/// The ray carried into a translated child's frame.
pub open spec fn translate_ray_s(r: Ray, offset: Vec3) -> Ray {
    Ray { orig: v3_sub_s(r.orig, offset), dir: r.dir, time: r.time }
}

/// A vector rotated into the child frame (by the inverse rotation).
pub open spec fn rot_in_s(v: Vec3, sin_theta: int, cos_theta: int) -> Vec3 {
    Vec3 {
        x: sat_s(fx_mul_s(cos_theta, v.x as int) - fx_mul_s(sin_theta, v.z as int)) as i64,
        y: v.y,
        z: sat_s(fx_mul_s(cos_theta, v.z as int) + fx_mul_s(sin_theta, v.x as int)) as i64,
    }
}

/// A vector rotated back into the world frame.
pub open spec fn rot_out_s(v: Vec3, sin_theta: int, cos_theta: int) -> Vec3 {
    Vec3 {
        x: sat_s(fx_mul_s(cos_theta, v.x as int) + fx_mul_s(sin_theta, v.z as int)) as i64,
        y: v.y,
        z: sat_s(fx_mul_s(cos_theta, v.z as int) - fx_mul_s(sin_theta, v.x as int)) as i64,
    }
}

/// No medium occurs anywhere in the object: its hit is a pure function.
pub open spec fn is_deterministic_s(o: Object) -> bool
    decreases o,
{
    match o {
        Object::Medium(_) => false,
        Object::Prism(bx) => seq_deterministic_s(bx.sides.objects@),
        Object::List(hl) => seq_deterministic_s(hl.objects@),
        Object::Flip(f) => is_deterministic_s(*f.child),
        Object::Translated(t) => is_deterministic_s(*t.child),
        Object::Rotated(ro) => is_deterministic_s(*ro.child),
        Object::Bvh(b) => is_deterministic_s(*b.left) && is_deterministic_s(*b.right),
        _ => true,
    }
}

/// Every member of the sequence is deterministic.
pub open spec fn seq_deterministic_s(s: Seq<Object>) -> bool
    decreases s,
{
    if s.len() == 0 {
        true
    } else {
        is_deterministic_s(s.last()) && seq_deterministic_s(s.drop_last())
    }
}

/// Every material index in the object is below `n`.
pub open spec fn mats_below_s(o: Object, n: int) -> bool
    decreases o,
{
    match o {
        Object::Sphere(sp) => (sp.mat as int) < n,
        Object::MovingSphere(ms) => (ms.mat as int) < n,
        Object::XyRect(rc) => (rc.mat as int) < n,
        Object::XzRect(rc) => (rc.mat as int) < n,
        Object::YzRect(rc) => (rc.mat as int) < n,
        Object::Triangle(tr) => (tr.mat as int) < n,
        Object::Prism(bx) => seq_mats_below_s(bx.sides.objects@, n),
        Object::List(hl) => seq_mats_below_s(hl.objects@, n),
        Object::Flip(f) => mats_below_s(*f.child, n),
        Object::Translated(t) => mats_below_s(*t.child, n),
        Object::Rotated(ro) => mats_below_s(*ro.child, n),
        Object::Medium(cm) => (cm.phase as int) < n && mats_below_s(*cm.boundary, n),
        Object::Bvh(b) => mats_below_s(*b.left, n) && mats_below_s(*b.right, n),
    }
}

/// Every material index in every member is below `n`.
pub open spec fn seq_mats_below_s(s: Seq<Object>, n: int) -> bool
    decreases s,
{
    if s.len() == 0 {
        true
    } else {
        mats_below_s(s.last(), n) && seq_mats_below_s(s.drop_last(), n)
    }
}

/// Member-wise reading of `seq_mats_below_s`.
pub proof fn lemma_seq_mats_below(s: Seq<Object>, n: int, i: int)
    requires
        seq_mats_below_s(s, n),
        0 <= i < s.len(),
    ensures
        mats_below_s(s[i], n),
    decreases s.len(),
{
    if i == s.len() - 1 {
        assert(s.last() == s[i]);
    } else {
        lemma_seq_mats_below(s.drop_last(), n, i);
        assert(s.drop_last()[i] == s[i]);
    }
}

/// Member-wise reading of `seq_deterministic_s`.
pub proof fn lemma_seq_deterministic(s: Seq<Object>, i: int)
    requires
        seq_deterministic_s(s),
        0 <= i < s.len(),
    ensures
        is_deterministic_s(s[i]),
    decreases s.len(),
{
    if i == s.len() - 1 {
        assert(s.last() == s[i]);
    } else {
        lemma_seq_deterministic(s.drop_last(), i);
        assert(s.drop_last()[i] == s[i]);
    }
}

/// The nearest hit of a deterministic object in `(t_min, t_max)`.
///
/// A medium, whose hit is randomized, is given no deterministic result here;
/// `Object::hit` is pinned to this function only on the deterministic
/// fragment.
pub open spec fn object_hit_s(o: Object, r: Ray, t_min: int, t_max: int) -> Option<HitRecord>
    decreases o,
{
    match o {
        Object::Sphere(sp) => sphere_hit_s(sp, r, t_min, t_max),
        Object::MovingSphere(ms) => moving_sphere_hit_s(ms, r, t_min, t_max),
        Object::XyRect(rc) => rc.hit_s(r, t_min, t_max),
        Object::XzRect(rc) => rc.hit_s(r, t_min, t_max),
        Object::YzRect(rc) => rc.hit_s(r, t_min, t_max),
        Object::Triangle(tr) => triangle_hit_s(tr, r, t_min, t_max),
        Object::Prism(bx) => scan_hit_s(bx.sides.objects@, r, t_min, t_max),
        Object::List(hl) => scan_hit_s(hl.objects@, r, t_min, t_max),
        Object::Flip(f) => match object_hit_s(*f.child, r, t_min, t_max) {
            Some(h) => Some(HitRecord { front_face: !h.front_face, ..h }),
            None => None,
        },
        Object::Translated(t) => {
            let moved = translate_ray_s(r, t.offset);
            match object_hit_s(*t.child, moved, t_min, t_max) {
                Some(h) => Some(HitRecord {
                    p: v3_add_s(h.p, t.offset),
                    normal: face_normal_s(moved, h.normal),
                    front_face: is_front_face_s(moved, h.normal),
                    ..h
                }),
                None => None,
            }
        },
        Object::Rotated(ro) => {
            let rotated = Ray {
                orig: rot_in_s(r.orig, ro.sin_theta as int, ro.cos_theta as int),
                dir: rot_in_s(r.dir, ro.sin_theta as int, ro.cos_theta as int),
                time: r.time,
            };
            match object_hit_s(*ro.child, rotated, t_min, t_max) {
                Some(h) => Some(HitRecord {
                    p: rot_out_s(h.p, ro.sin_theta as int, ro.cos_theta as int),
                    normal: rot_out_s(h.normal, ro.sin_theta as int, ro.cos_theta as int),
                    ..h
                }),
                None => None,
            }
        },
        Object::Medium(_) => None,
        Object::Bvh(b) => {
            if !aabb_hit_s(b.box1, r, t_min, t_max) {
                None
            } else {
                match object_hit_s(*b.left, r, t_min, t_max) {
                    Some(hl) => match object_hit_s(*b.right, r, t_min, hl.t as int) {
                        Some(hr) => Some(hr),
                        None => Some(hl),
                    },
                    None => object_hit_s(*b.right, r, t_min, t_max),
                }
            }
        },
    }
}

/// The in-order linear scan: each member is queried with the interval
/// narrowed to the best hit so far, so the survivor is the nearest hit.
pub open spec fn scan_hit_s(s: Seq<Object>, r: Ray, t_min: int, t_max: int) -> Option<HitRecord>
    decreases s,
{
    if s.len() == 0 {
        None
    } else {
        match scan_hit_s(s.drop_last(), r, t_min, t_max) {
            Some(h) => match object_hit_s(s.last(), r, t_min, h.t as int) {
                Some(h2) => Some(h2),
                None => Some(h),
            },
            None => object_hit_s(s.last(), r, t_min, t_max),
        }
    }
}

/// One corner of a box, selected per axis, rotated out of the child frame.
pub open spec fn rot_corner_s(bb: AABB, sin_theta: int, cos_theta: int, i: int, j: int, k: int)
    -> Vec3 {
    let x = if i == 1 { bb.maximum.x } else { bb.minimum.x };
    let y = if j == 1 { bb.maximum.y } else { bb.minimum.y };
    let z = if k == 1 { bb.maximum.z } else { bb.minimum.z };
    rot_out_s(Vec3 { x, y, z }, sin_theta, cos_theta)
}

/// The box of a rotated child: the extent of the eight rotated corners.
pub open spec fn rot_box_s(bb: AABB, sin_theta: int, cos_theta: int) -> AABB {
    let c0 = rot_corner_s(bb, sin_theta, cos_theta, 0, 0, 0);
    let c1 = rot_corner_s(bb, sin_theta, cos_theta, 0, 0, 1);
    let c2 = rot_corner_s(bb, sin_theta, cos_theta, 0, 1, 0);
    let c3 = rot_corner_s(bb, sin_theta, cos_theta, 0, 1, 1);
    let c4 = rot_corner_s(bb, sin_theta, cos_theta, 1, 0, 0);
    let c5 = rot_corner_s(bb, sin_theta, cos_theta, 1, 0, 1);
    let c6 = rot_corner_s(bb, sin_theta, cos_theta, 1, 1, 0);
    let c7 = rot_corner_s(bb, sin_theta, cos_theta, 1, 1, 1);
    AABB {
        minimum: Vec3 {
            x: min_i(min_i(min_i(c0.x as int, c1.x as int), min_i(c2.x as int, c3.x as int)),
                min_i(min_i(c4.x as int, c5.x as int), min_i(c6.x as int, c7.x as int))) as i64,
            y: min_i(min_i(min_i(c0.y as int, c1.y as int), min_i(c2.y as int, c3.y as int)),
                min_i(min_i(c4.y as int, c5.y as int), min_i(c6.y as int, c7.y as int))) as i64,
            z: min_i(min_i(min_i(c0.z as int, c1.z as int), min_i(c2.z as int, c3.z as int)),
                min_i(min_i(c4.z as int, c5.z as int), min_i(c6.z as int, c7.z as int))) as i64,
        },
        maximum: Vec3 {
            x: max_i(max_i(max_i(c0.x as int, c1.x as int), max_i(c2.x as int, c3.x as int)),
                max_i(max_i(c4.x as int, c5.x as int), max_i(c6.x as int, c7.x as int))) as i64,
            y: max_i(max_i(max_i(c0.y as int, c1.y as int), max_i(c2.y as int, c3.y as int)),
                max_i(max_i(c4.y as int, c5.y as int), max_i(c6.y as int, c7.y as int))) as i64,
            z: max_i(max_i(max_i(c0.z as int, c1.z as int), max_i(c2.z as int, c3.z as int)),
                max_i(max_i(c4.z as int, c5.z as int), max_i(c6.z as int, c7.z as int))) as i64,
        },
    }
}

/// The medium's hit as a function of the uniform draw `u`: find the two
/// boundary crossings, clamp them to the query interval, and scatter at the
/// exponential free-flight distance `-(1/density) ln(u)` when it falls
/// short of the span, with a fixed arbitrary normal.
pub open spec fn medium_hit_s(cm: ConstantMedium, r: Ray, t_min: int, t_max: int, u: int)
    -> Option<HitRecord> {
    match object_hit_s(*cm.boundary, r, -(FX_INF as int), FX_INF as int) {
        None => None,
        Some(rec1) => match object_hit_s(*cm.boundary, r, sat_s(rec1.t + FX_EPS),
            FX_INF as int) {
            None => None,
            Some(rec2) => {
                let t1 = max_i(rec1.t as int, t_min);
                let t2 = min_i(rec2.t as int, t_max);
                if t1 >= t2 {
                    None
                } else {
                    let t1c = max_i(t1, 0);
                    let ray_length = crate::vec3::v3_len_s(r.dir);
                    let distance_inside = fx_mul_s(sat_s(t2 - t1c), ray_length);
                    let hit_distance = fx_mul_s(cm.neg_inv_density as int,
                        sat_s(-crate::fx::neg_ln_unit_s(u)));
                    if hit_distance > distance_inside {
                        None
                    } else {
                        let t = sat_s(t1c + fx_div_s(hit_distance, ray_length));
                        Some(HitRecord {
                            p: crate::ray::ray_at_s(r, t),
                            normal: Vec3 { x: FX_ONE, y: 0i64, z: 0i64 },
                            t: t as i64,
                            mat: cm.phase,
                            front_face: true,
                            u: 0i64,
                            v: 0i64,
                        })
                    }
                }
            },
        },
    }
}

/// The bounding box over a time interval; `None` means unbounded.
pub open spec fn object_box_s(o: Object, time0: int, time1: int) -> Option<AABB>
    decreases o,
{
    match o {
        Object::Sphere(sp) => Some(AABB {
            minimum: v3_sub_s(sp.center, Vec3 { x: sp.radius, y: sp.radius, z: sp.radius }),
            maximum: v3_add_s(sp.center, Vec3 { x: sp.radius, y: sp.radius, z: sp.radius }),
        }),
        Object::MovingSphere(ms) => Some(aabb_union_s(
            moving_box_at_s(ms, time0), moving_box_at_s(ms, time1))),
        Object::XyRect(rc) => Some(AABB {
            minimum: Vec3 { x: rc.x0, y: rc.y0, z: sat_s(rc.k - FX_EPS) as i64 },
            maximum: Vec3 { x: rc.x1, y: rc.y1, z: sat_s(rc.k + FX_EPS) as i64 },
        }),
        Object::XzRect(rc) => Some(AABB {
            minimum: Vec3 { x: rc.x0, y: sat_s(rc.k - FX_EPS) as i64, z: rc.z0 },
            maximum: Vec3 { x: rc.x1, y: sat_s(rc.k + FX_EPS) as i64, z: rc.z1 },
        }),
        Object::YzRect(rc) => Some(AABB {
            minimum: Vec3 { x: sat_s(rc.k - FX_EPS) as i64, y: rc.y0, z: rc.z0 },
            maximum: Vec3 { x: sat_s(rc.k + FX_EPS) as i64, y: rc.y1, z: rc.z1 },
        }),
        Object::Triangle(tr) => Some(AABB {
            minimum: Vec3 {
                x: sat_s(min_i(min_i(tr.a1.x as int, tr.a2.x as int), tr.a3.x as int)
                    - FX_EPS) as i64,
                y: sat_s(min_i(min_i(tr.a1.y as int, tr.a2.y as int), tr.a3.y as int)
                    - FX_EPS) as i64,
                z: sat_s(min_i(min_i(tr.a1.z as int, tr.a2.z as int), tr.a3.z as int)
                    - FX_EPS) as i64,
            },
            maximum: Vec3 {
                x: sat_s(max_i(max_i(tr.a1.x as int, tr.a2.x as int), tr.a3.x as int)
                    + FX_EPS) as i64,
                y: sat_s(max_i(max_i(tr.a1.y as int, tr.a2.y as int), tr.a3.y as int)
                    + FX_EPS) as i64,
                z: sat_s(max_i(max_i(tr.a1.z as int, tr.a2.z as int), tr.a3.z as int)
                    + FX_EPS) as i64,
            },
        }),
        Object::Prism(bx) => Some(AABB { minimum: bx.box_min, maximum: bx.box_max }),
        Object::List(hl) => scan_box_s(hl.objects@, time0, time1),
        Object::Flip(f) => object_box_s(*f.child, time0, time1),
        Object::Translated(t) => match object_box_s(*t.child, time0, time1) {
            Some(bb) => Some(AABB {
                minimum: v3_add_s(bb.minimum, t.offset),
                maximum: v3_add_s(bb.maximum, t.offset),
            }),
            None => None,
        },
        Object::Rotated(ro) => Some(ro.bbox),
        Object::Medium(cm) => object_box_s(*cm.boundary, time0, time1),
        Object::Bvh(b) => Some(b.box1),
    }
}

/// The box of a scanned collection: the running union, `None` for an empty
/// collection or when any member is unbounded.
pub open spec fn scan_box_s(s: Seq<Object>, time0: int, time1: int) -> Option<AABB>
    decreases s,
{
    if s.len() == 0 {
        None
    } else if s.len() == 1 {
        object_box_s(s.last(), time0, time1)
    } else {
        match scan_box_s(s.drop_last(), time0, time1) {
            Some(acc) => match object_box_s(s.last(), time0, time1) {
                Some(bb) => Some(aabb_union_s(acc, bb)),
                None => None,
            },
            None => None,
        }
    }
}

/// The light-sampling density of a direction: meaningful for the shapes used
/// as lights (spheres, rectangles, translated lights and collections of
/// them); zero for everything else.
pub open spec fn object_pdf_s(o: Object, origin: Vec3, v: Vec3) -> int
    decreases o,
{
    match o {
        Object::Sphere(sp) => sphere_pdf_value_s(sp, origin, v),
        Object::XyRect(rc) => rect_pdf_s(
            rc.hit_s(Ray { orig: origin, dir: v, time: 0i64 },
                crate::fx::FX_MILLI as int, FX_INF as int),
            fx_mul_s(sat_s(rc.x1 - rc.x0), sat_s(rc.y1 - rc.y0)), origin, v),
        Object::XzRect(rc) => rect_pdf_s(
            rc.hit_s(Ray { orig: origin, dir: v, time: 0i64 },
                crate::fx::FX_MILLI as int, FX_INF as int),
            fx_mul_s(sat_s(rc.x1 - rc.x0), sat_s(rc.z1 - rc.z0)), origin, v),
        Object::YzRect(rc) => rect_pdf_s(
            rc.hit_s(Ray { orig: origin, dir: v, time: 0i64 },
                crate::fx::FX_MILLI as int, FX_INF as int),
            fx_mul_s(sat_s(rc.y1 - rc.y0), sat_s(rc.z1 - rc.z0)), origin, v),
        Object::List(hl) => scan_pdf_s(hl.objects@, origin, v,
            fx_div_s(FX_ONE as int, sat_s((hl.objects@.len() as int) * (FX_ONE as int)))),
        Object::Translated(t) => object_pdf_s(*t.child, v3_sub_s(origin, t.offset), v),
        _ => 0,
    }
}

/// The weighted sum of member densities.
pub open spec fn scan_pdf_s(s: Seq<Object>, origin: Vec3, v: Vec3, weight: int) -> int
    decreases s,
{
    if s.len() == 0 {
        0
    } else {
        sat_s(scan_pdf_s(s.drop_last(), origin, v, weight)
            + fx_mul_s(weight, object_pdf_s(s.last(), origin, v)))
    }
}

/// What a drawn light-sampling direction can be: for each shape usable as a
/// light, the support of its construction; for a collection, some member's
/// draw; for a translated light, the child's draw from the shifted origin;
/// the zero vector for everything else.
pub open spec fn shape_sample_ok_s(o: Object, origin: Vec3, res: Vec3) -> bool
    decreases o,
{
    match o {
        Object::Sphere(sp) => sphere_sample_ok_s(sp, origin, res),
        Object::XyRect(rc) => rect_xy_sample_ok_s(rc, origin, res),
        Object::XzRect(rc) => rect_xz_sample_ok_s(rc, origin, res),
        Object::YzRect(rc) => rect_yz_sample_ok_s(rc, origin, res),
        Object::List(hl) => if hl.objects@.len() == 0 {
            res == (Vec3 { x: 0i64, y: 0i64, z: 0i64 })
        } else {
            exists|i: int| 0 <= i < hl.objects@.len()
                && shape_sample_ok_s(#[trigger] hl.objects@[i], origin, res)
        },
        Object::Translated(t) => shape_sample_ok_s(*t.child, v3_sub_s(origin, t.offset), res),
        _ => res == (Vec3 { x: 0i64, y: 0i64, z: 0i64 }),
    }
}

impl HittableList {
    /// An empty collection.
    pub fn new() -> (r: HittableList)
        ensures
            r.objects@ == Seq::<Object>::empty(),
    {
        HittableList { objects: Vec::new() }
    }

    /// Append an object.
    pub fn add(&mut self, object: Object)
        ensures
            final(self).objects@ == old(self).objects@.push(object),
    {
        self.objects.push(object);
    }

    /// The nearest hit over the members, scanned in order.
    pub fn hit(&self, r: &Ray, t_min: i64, t_max: i64) -> (res: Option<HitRecord>)
        ensures
            seq_deterministic_s(self.objects@) ==> res == scan_hit_s(
                self.objects@, *r, t_min as int, t_max as int),
            forall|n: int| seq_mats_below_s(self.objects@, n)
                ==> (res matches Some(h) ==> (h.mat as int) < n),
        decreases *self,
    {
        let ghost s = self.objects@;
        let mut best: Option<HitRecord> = None;
        let mut closest: i64 = t_max;
        let mut i: usize = 0;
        while i < self.objects.len()
            invariant
                0 <= i <= s.len(),
                s == self.objects@,
                seq_deterministic_s(s) ==> best == scan_hit_s(
                    s.subrange(0, i as int), *r, t_min as int, t_max as int),
                match best {
                    Some(h) => closest == h.t,
                    None => closest == t_max,
                },
                forall|n: int| seq_mats_below_s(s, n)
                    ==> (best matches Some(h) ==> (h.mat as int) < n),
            decreases s.len() - i,
        {
            proof {
                assert(decreases_to!(*self => self.objects));
                assert(decreases_to!(self.objects => self.objects@));
                assert(decreases_to!(self.objects@ => self.objects@[i as int]));
                if seq_deterministic_s(s) {
                    lemma_seq_deterministic(s, i as int);
                }
            }
            let res_i = self.objects[i].hit(r, t_min, closest);
            proof {
                assert(s.subrange(0, (i + 1) as int).drop_last() =~= s.subrange(0, i as int));
                assert(s.subrange(0, (i + 1) as int).last() == s[i as int]);
                assert forall|n: int| seq_mats_below_s(s, n) implies
                    mats_below_s(s[i as int], n) by {
                    lemma_seq_mats_below(s, n, i as int);
                }
            }
            match res_i {
                Some(h) => {
                    closest = h.t;
                    best = Some(h);
                },
                None => {},
            }
            i = i + 1;
        }
        proof {
            assert(s.subrange(0, s.len() as int) =~= s);
        }
        best
    }

    /// The union of the members' boxes; `None` when empty or any member is
    /// unbounded.
    pub fn bounding_box(&self, time0: i64, time1: i64) -> (res: Option<AABB>)
        ensures
            res == scan_box_s(self.objects@, time0 as int, time1 as int),
        decreases *self,
    {
        let ghost s = self.objects@;
        if self.objects.len() == 0 {
            return None;
        }
        let mut acc: Option<AABB> = None;
        let mut i: usize = 0;
        while i < self.objects.len()
            invariant
                0 <= i <= s.len(),
                s == self.objects@,
                s.len() > 0,
                i > 0 ==> acc == scan_box_s(s.subrange(0, i as int), time0 as int, time1 as int),
                i > 0 ==> acc is Some,
                i == 0 ==> acc is None,
            decreases s.len() - i,
        {
            proof {
                assert(decreases_to!(*self => self.objects));
                assert(decreases_to!(self.objects => self.objects@));
                assert(decreases_to!(self.objects@ => self.objects@[i as int]));
            }
            let bb_i = self.objects[i].bounding_box(time0, time1);
            proof {
                assert(s.subrange(0, (i + 1) as int).drop_last() =~= s.subrange(0, i as int));
                assert(s.subrange(0, (i + 1) as int).last() == s[i as int]);
                assert(s.subrange(0, 1int).len() == 1);
            }
            match bb_i {
                Some(bb) => {
                    acc = match acc {
                        Some(a) => Some(AABB::surrounding_box(a, bb)),
                        None => Some(bb),
                    };
                },
                None => {
                    proof {
                        lemma_scan_box_none(s, time0 as int, time1 as int, i as int);
                    }
                    return None;
                },
            }
            i = i + 1;
        }
        proof {
            assert(s.subrange(0, s.len() as int) =~= s);
        }
        acc
    }

    /// The average of the members' sampling densities.
    pub fn pdf_value(&self, o: &Vec3, v: &Vec3) -> (res: i64)
        ensures
            res == scan_pdf_s(self.objects@, *o, *v,
                fx_div_s(FX_ONE as int, sat_s((self.objects@.len() as int) * (FX_ONE as int)))),
            fx_ok(res as int),
        decreases *self,
    {
        let ghost s = self.objects@;
        let weight = fx_div(FX_ONE, usize_to_fx(self.objects.len()));
        let ghost w = weight as int;
        let mut sum: i64 = 0;
        let mut i: usize = 0;
        while i < self.objects.len()
            invariant
                0 <= i <= s.len(),
                s == self.objects@,
                w == fx_div_s(FX_ONE as int, sat_s((s.len() as int) * (FX_ONE as int))),
                weight as int == w,
                sum == scan_pdf_s(s.subrange(0, i as int), *o, *v, w),
                fx_ok(sum as int),
            decreases s.len() - i,
        {
            proof {
                assert(decreases_to!(*self => self.objects));
                assert(decreases_to!(self.objects => self.objects@));
                assert(decreases_to!(self.objects@ => self.objects@[i as int]));
            }
            let p_i = self.objects[i].pdf_value(o, v);
            proof {
                assert(s.subrange(0, (i + 1) as int).drop_last() =~= s.subrange(0, i as int));
                assert(s.subrange(0, (i + 1) as int).last() == s[i as int]);
            }
            sum = fx_add(sum, fx_mul(weight, p_i));
            i = i + 1;
        }
        proof {
            assert(s.subrange(0, s.len() as int) =~= s);
        }
        sum
    }

    /// A direction drawn by delegating to a uniformly chosen member; the
    /// zero vector for an empty collection.
    pub fn random(&self, o: Vec3) -> (res: Vec3)
        ensures
            v3_ok(res),
            self.objects@.len() == 0 ==> res == (Vec3 { x: 0i64, y: 0i64, z: 0i64 }),
            shape_sample_ok_s(Object::List(*self), o, res),
        decreases *self,
    {
        if self.objects.len() == 0 {
            return Vec3::zero();
        }
        let idx = random_u64(self.objects.len() as u64) as usize;
        proof {
            assert(decreases_to!(*self => self.objects));
            assert(decreases_to!(self.objects => self.objects@));
            assert(decreases_to!(self.objects@ => self.objects@[idx as int]));
        }
        let res = self.objects[idx].random(o);
        proof {
            assert(shape_sample_ok_s(self.objects@[idx as int], o, res));
        }
        res
    }
}

/// A member without a box leaves the whole collection unbounded.
pub proof fn lemma_scan_box_none(s: Seq<Object>, time0: int, time1: int, i: int)
    requires
        0 <= i < s.len(),
        object_box_s(s[i], time0, time1) is None,
    ensures
        scan_box_s(s, time0, time1) is None,
    decreases s.len(),
{
    if i == s.len() - 1 {
        assert(s.last() == s[i]);
    } else {
        lemma_scan_box_none(s.drop_last(), time0, time1, i);
        assert(s.drop_last()[i] == s[i]);
    }
}

/// A vector rotated into the child frame (by the inverse rotation).
fn rot_in(v: &Vec3, sin_theta: i64, cos_theta: i64) -> (r: Vec3)
    ensures
        r == rot_in_s(*v, sin_theta as int, cos_theta as int),
{
    Vec3::new(
        fx_sub(fx_mul(cos_theta, v.x), fx_mul(sin_theta, v.z)),
        v.y,
        fx_add(fx_mul(cos_theta, v.z), fx_mul(sin_theta, v.x)),
    )
}

/// A vector rotated back into the world frame.
fn rot_out(v: &Vec3, sin_theta: i64, cos_theta: i64) -> (r: Vec3)
    ensures
        r == rot_out_s(*v, sin_theta as int, cos_theta as int),
{
    Vec3::new(
        fx_add(fx_mul(cos_theta, v.x), fx_mul(sin_theta, v.z)),
        v.y,
        fx_sub(fx_mul(cos_theta, v.z), fx_mul(sin_theta, v.x)),
    )
}

/// The flipped child hit.
fn hit_flip(f: &FlipFace, r: &Ray, t_min: i64, t_max: i64) -> (res: Option<HitRecord>)
    ensures
        is_deterministic_s(Object::Flip(*f)) ==> res == object_hit_s(
            Object::Flip(*f), *r, t_min as int, t_max as int),
        forall|n: int| mats_below_s(Object::Flip(*f), n)
            ==> (res matches Some(h) ==> (h.mat as int) < n),
    decreases *f,
{
    let res = match f.child.hit(r, t_min, t_max) {
        Some(h) => {
            let mut h2 = h;
            h2.front_face = !h2.front_face;
            Some(h2)
        },
        None => None,
    };
    proof {
        assert forall|n: int| mats_below_s(Object::Flip(*f), n) implies
            (res matches Some(h) ==> (h.mat as int) < n) by {
            assert(mats_below_s(*f.child, n));
        }
    }
    res
}

/// The translated child hit.
fn hit_translated(t: &Translate, r: &Ray, t_min: i64, t_max: i64) -> (res: Option<HitRecord>)
    ensures
        is_deterministic_s(Object::Translated(*t)) ==> res == object_hit_s(
            Object::Translated(*t), *r, t_min as int, t_max as int),
        forall|n: int| mats_below_s(Object::Translated(*t), n)
            ==> (res matches Some(h) ==> (h.mat as int) < n),
    decreases *t,
{
    let moved = Ray::new(r.orig.sub(&t.offset), r.dir, r.time);
    let res = match t.child.hit(&moved, t_min, t_max) {
        Some(h) => {
            let mut h2 = h;
            h2.p = h.p.add(&t.offset);
            let outward = h.normal;
            h2.set_face_normal(&moved, outward);
            Some(h2)
        },
        None => None,
    };
    proof {
        assert forall|n: int| mats_below_s(Object::Translated(*t), n) implies
            (res matches Some(h) ==> (h.mat as int) < n) by {
            assert(mats_below_s(*t.child, n));
        }
    }
    res
}

/// The rotated child hit.
fn hit_rotated(ro: &RotateY, r: &Ray, t_min: i64, t_max: i64) -> (res: Option<HitRecord>)
    ensures
        is_deterministic_s(Object::Rotated(*ro)) ==> res == object_hit_s(
            Object::Rotated(*ro), *r, t_min as int, t_max as int),
        forall|n: int| mats_below_s(Object::Rotated(*ro), n)
            ==> (res matches Some(h) ==> (h.mat as int) < n),
    decreases *ro,
{
    let rotated = Ray::new(
        rot_in(&r.orig, ro.sin_theta, ro.cos_theta),
        rot_in(&r.dir, ro.sin_theta, ro.cos_theta),
        r.time,
    );
    let res = match ro.child.hit(&rotated, t_min, t_max) {
        Some(h) => {
            let mut h2 = h;
            h2.p = rot_out(&h.p, ro.sin_theta, ro.cos_theta);
            h2.normal = rot_out(&h.normal, ro.sin_theta, ro.cos_theta);
            Some(h2)
        },
        None => None,
    };
    proof {
        assert forall|n: int| mats_below_s(Object::Rotated(*ro), n) implies
            (res matches Some(h) ==> (h.mat as int) < n) by {
            assert(mats_below_s(*ro.child, n));
        }
    }
    res
}

/// The medium hit: the two boundary crossings are clamped to the query
/// interval and a scattering point is drawn from the free-flight
/// distribution; past the far crossing the ray leaves unscattered.
#[verifier::rlimit(60)]
fn hit_medium(cm: &ConstantMedium, r: &Ray, t_min: i64, t_max: i64) -> (res: Option<HitRecord>)
    ensures
        forall|n: int| mats_below_s(Object::Medium(*cm), n)
            ==> (res matches Some(h) ==> (h.mat as int) < n),
        res matches Some(h) ==> h.mat == cm.phase && h.front_face
            && h.normal == (Vec3 { x: FX_ONE, y: 0i64, z: 0i64 }),
        cm.neg_inv_density <= 0 ==> (res matches Some(h) ==> h.t >= 0
            && h.t as int >= min_i(t_min as int, FX_INF as int)),
        is_deterministic_s(*cm.boundary) ==> exists|u: i64| 0 <= u < FX_ONE
            && res == #[trigger] medium_hit_s(*cm, *r, t_min as int, t_max as int, u as int),
    decreases *cm,
{
    let rec1 = match cm.boundary.hit(r, -FX_INF, FX_INF) {
        Some(h) => h,
        None => {
            proof {
                if is_deterministic_s(*cm.boundary) {
                    assert(medium_hit_s(*cm, *r, t_min as int, t_max as int, 0int) is None);
                    assert(0 <= 0i64 < FX_ONE
                        && (None::<HitRecord>) == medium_hit_s(
                            *cm, *r, t_min as int, t_max as int, 0i64 as int));
                }
            }
            return None;
        },
    };
    let rec2 = match cm.boundary.hit(r, fx_add(rec1.t, FX_EPS), FX_INF) {
        Some(h) => h,
        None => {
            proof {
                if is_deterministic_s(*cm.boundary) {
                    assert(0 <= 0i64 < FX_ONE
                        && (None::<HitRecord>) == medium_hit_s(
                            *cm, *r, t_min as int, t_max as int, 0i64 as int));
                }
            }
            return None;
        },
    };
    let mut t1v = rec1.t;
    let mut t2v = rec2.t;
    if t1v < t_min {
        t1v = t_min;
    }
    if t2v > t_max {
        t2v = t_max;
    }
    if t1v >= t2v {
        proof {
            if is_deterministic_s(*cm.boundary) {
                assert(0 <= 0i64 < FX_ONE
                    && (None::<HitRecord>) == medium_hit_s(
                        *cm, *r, t_min as int, t_max as int, 0i64 as int));
            }
        }
        return None;
    }
    if t1v < 0 {
        t1v = 0;
    }
    let ray_length = r.dir.len();
    let distance_inside = fx_mul(fx_sub(t2v, t1v), ray_length);
    let draw = random_unit();
    let nl = crate::fx::fx_neg_ln_unit(draw);
    let hit_distance = fx_mul(cm.neg_inv_density, fx_neg(nl));
    if hit_distance > distance_inside {
        proof {
            if is_deterministic_s(*cm.boundary) {
                assert(0 <= draw < FX_ONE
                    && (None::<HitRecord>) == medium_hit_s(
                        *cm, *r, t_min as int, t_max as int, draw as int));
            }
        }
        return None;
    }
    proof {
        if cm.neg_inv_density <= 0 {
            assert((cm.neg_inv_density as int) * (crate::fx::sat_s(-(nl as int))) >= 0)
                by (nonlinear_arith)
                requires
                    cm.neg_inv_density as int <= 0,
                    crate::fx::sat_s(-(nl as int)) <= 0,
            ;
            crate::fx::lemma_div_t_nonneg(
                (cm.neg_inv_density as int) * (crate::fx::sat_s(-(nl as int))),
                FX_ONE as int);
            crate::fx::lemma_fx_div_nonneg(hit_distance as int, ray_length as int);
        }
    }
    let t = fx_add(t1v, fx_div(hit_distance, ray_length));
    let res = Some(HitRecord::new(r.at(t), Vec3::new(FX_ONE, 0, 0), t, cm.phase, true));
    proof {
        assert forall|n: int| mats_below_s(Object::Medium(*cm), n) implies
            (res matches Some(h) ==> (h.mat as int) < n) by {
            assert((cm.phase as int) < n);
        }
        if is_deterministic_s(*cm.boundary) {
            assert(0 <= draw < FX_ONE
                && res == medium_hit_s(*cm, *r, t_min as int, t_max as int, draw as int));
        }
    }
    res
}

/// The hierarchy-node hit: prune on the node box, then let a right-hand hit
/// override the left only through the narrowed interval.
fn hit_bvh(b: &BvhNode, r: &Ray, t_min: i64, t_max: i64) -> (res: Option<HitRecord>)
    ensures
        is_deterministic_s(Object::Bvh(*b)) ==> res == object_hit_s(
            Object::Bvh(*b), *r, t_min as int, t_max as int),
        forall|n: int| mats_below_s(Object::Bvh(*b), n)
            ==> (res matches Some(h) ==> (h.mat as int) < n),
    decreases *b,
{
    let res = if !b.box1.hit(r, t_min, t_max) {
        None
    } else {
        match b.left.hit(r, t_min, t_max) {
            Some(hl) => match b.right.hit(r, t_min, hl.t) {
                Some(hr) => Some(hr),
                None => Some(hl),
            },
            None => b.right.hit(r, t_min, t_max),
        }
    };
    proof {
        assert forall|n: int| mats_below_s(Object::Bvh(*b), n) implies
            (res matches Some(h) ==> (h.mat as int) < n) by {
            assert(mats_below_s(*b.left, n));
            assert(mats_below_s(*b.right, n));
        }
    }
    res
}

impl Object {
    /// Nearest intersection strictly within the query interval.
    ///
    /// On the deterministic fragment the result is exactly `object_hit_s`;
    /// a medium's hit additionally depends on its random free-flight draw,
    /// and then only the general clauses hold.
    #[verifier::rlimit(100)]
    pub fn hit(&self, r: &Ray, t_min: i64, t_max: i64) -> (res: Option<HitRecord>)
        ensures
            is_deterministic_s(*self) ==> res == object_hit_s(
                *self, *r, t_min as int, t_max as int),
            forall|n: int| mats_below_s(*self, n)
                ==> (res matches Some(h) ==> (h.mat as int) < n),
            *self matches Object::Medium(cm) ==> (is_deterministic_s(*cm.boundary)
                ==> exists|u: i64| 0 <= u < FX_ONE && res == #[trigger] medium_hit_s(
                    cm, *r, t_min as int, t_max as int, u as int)),
        decreases *self,
    {
        match self {
            Object::Sphere(sp) => {
                let res = sp.hit(r, t_min, t_max);
                proof {
                    match res {
                        Some(h) => {
                            assert(h.mat == sp.mat);
                        },
                        None => {},
                    }
                }
                res
            },
            Object::MovingSphere(ms) => {
                let res = ms.hit(r, t_min, t_max);
                proof {
                    match res {
                        Some(h) => {
                            assert(h.mat == ms.mat);
                        },
                        None => {},
                    }
                }
                res
            },
            Object::XyRect(rc) => {
                let res = rc.hit(r, t_min, t_max);
                proof {
                    match res {
                        Some(h) => {
                            assert(h.mat == rc.mat);
                        },
                        None => {},
                    }
                }
                res
            },
            Object::XzRect(rc) => {
                let res = rc.hit(r, t_min, t_max);
                proof {
                    match res {
                        Some(h) => {
                            assert(h.mat == rc.mat);
                        },
                        None => {},
                    }
                }
                res
            },
            Object::YzRect(rc) => {
                let res = rc.hit(r, t_min, t_max);
                proof {
                    match res {
                        Some(h) => {
                            assert(h.mat == rc.mat);
                        },
                        None => {},
                    }
                }
                res
            },
            Object::Triangle(tr) => {
                let res = tr.hit(r, t_min, t_max);
                proof {
                    match res {
                        Some(h) => {
                            assert(h.mat == tr.mat);
                        },
                        None => {},
                    }
                }
                res
            },
            Object::Prism(bx) => {
                proof {
                    assert(decreases_to!(*self => bx.sides));
                }
                let res = bx.sides.hit(r, t_min, t_max);
                proof {
                    assert forall|n: int| mats_below_s(*self, n) implies
                        (res matches Some(h) ==> (h.mat as int) < n) by {
                        assert(seq_mats_below_s(bx.sides.objects@, n));
                    }
                }
                res
            },
            Object::List(hl) => {
                proof {
                    assert(decreases_to!(*self => *hl));
                }
                let res = hl.hit(r, t_min, t_max);
                proof {
                    assert forall|n: int| mats_below_s(*self, n) implies
                        (res matches Some(h) ==> (h.mat as int) < n) by {
                        assert(seq_mats_below_s(hl.objects@, n));
                    }
                }
                res
            },
            Object::Flip(f) => {
                proof {
                    assert(decreases_to!(*self => *f));
                }
                hit_flip(f, r, t_min, t_max)
            },
            Object::Translated(t) => {
                proof {
                    assert(decreases_to!(*self => *t));
                }
                hit_translated(t, r, t_min, t_max)
            },
            Object::Rotated(ro) => {
                proof {
                    assert(decreases_to!(*self => *ro));
                }
                hit_rotated(ro, r, t_min, t_max)
            },
            Object::Medium(cm) => {
                proof {
                    assert(decreases_to!(*self => *cm));
                }
                hit_medium(cm, r, t_min, t_max)
            },
            Object::Bvh(b) => {
                proof {
                    assert(decreases_to!(*self => *b));
                }
                hit_bvh(b, r, t_min, t_max)
            },
        }
    }

    /// The bounding box over the time interval; `None` means unbounded.
    pub fn bounding_box(&self, time0: i64, time1: i64) -> (res: Option<AABB>)
        ensures
            res == object_box_s(*self, time0 as int, time1 as int),
        decreases *self,
    {
        match self {
            Object::Sphere(sp) => Some(sp.bounding_box()),
            Object::MovingSphere(ms) => Some(ms.bounding_box(time0, time1)),
            Object::XyRect(rc) => Some(rc.bounding_box()),
            Object::XzRect(rc) => Some(rc.bounding_box()),
            Object::YzRect(rc) => Some(rc.bounding_box()),
            Object::Triangle(tr) => Some(tr.bounding_box()),
            Object::Prism(bx) => Some(AABB::new(bx.box_min, bx.box_max)),
            Object::List(hl) => {
                proof {
                    assert(decreases_to!(*self => *hl));
                }
                hl.bounding_box(time0, time1)
            },
            Object::Flip(f) => {
                proof {
                    assert(decreases_to!(*self => *f.child));
                }
                f.child.bounding_box(time0, time1)
            },
            Object::Translated(t) => {
                proof {
                    assert(decreases_to!(*self => *t.child));
                }
                match t.child.bounding_box(time0, time1) {
                    Some(bb) => Some(AABB::new(
                        bb.minimum.add(&t.offset),
                        bb.maximum.add(&t.offset),
                    )),
                    None => None,
                }
            },
            Object::Rotated(ro) => Some(ro.bbox),
            Object::Medium(cm) => {
                proof {
                    assert(decreases_to!(*self => *cm.boundary));
                }
                cm.boundary.bounding_box(time0, time1)
            },
            Object::Bvh(b) => Some(b.box1),
        }
    }

    /// The light-sampling density of the direction `v` seen from `origin`.
    pub fn pdf_value(&self, origin: &Vec3, v: &Vec3) -> (res: i64)
        ensures
            res == object_pdf_s(*self, *origin, *v),
            fx_ok(res as int),
        decreases *self,
    {
        match self {
            Object::Sphere(sp) => sp.pdf_value(origin, v),
            Object::XyRect(rc) => rc.pdf_value(origin, v),
            Object::XzRect(rc) => rc.pdf_value(origin, v),
            Object::YzRect(rc) => rc.pdf_value(origin, v),
            Object::List(hl) => {
                proof {
                    assert(decreases_to!(*self => *hl));
                }
                hl.pdf_value(origin, v)
            },
            Object::Translated(t) => {
                proof {
                    assert(decreases_to!(*self => *t.child));
                }
                let shifted = origin.sub(&t.offset);
                t.child.pdf_value(&shifted, v)
            },
            _ => 0,
        }
    }

    /// A direction drawn toward the object: for the shapes usable as
    /// lights, a draw from their stated construction; the zero vector for
    /// the rest.
    pub fn random(&self, o: Vec3) -> (res: Vec3)
        ensures
            v3_ok(res),
            shape_sample_ok_s(*self, o, res),
        decreases *self,
    {
        match self {
            Object::Sphere(sp) => sp.random(o),
            Object::XyRect(rc) => rc.random(o),
            Object::XzRect(rc) => rc.random(o),
            Object::YzRect(rc) => rc.random(o),
            Object::List(hl) => {
                proof {
                    assert(decreases_to!(*self => *hl));
                }
                hl.random(o)
            },
            Object::Translated(t) => {
                proof {
                    assert(decreases_to!(*self => *t.child));
                }
                t.child.random(o.sub(&t.offset))
            },
            _ => Vec3::zero(),
        }
    }
}

impl FlipFace {
    /// Wrap a child so that its reported face orientation is inverted.
    pub fn new(p: Object) -> (r: FlipFace)
        ensures
            *r.child == p,
    {
        FlipFace { child: Box::new(p) }
    }
}

impl Translate {
    /// Shift a child by a displacement.
    pub fn new(p: Object, displacement: Vec3) -> (r: Translate)
        ensures
            *r.child == p,
            r.offset == displacement,
    {
        Translate { offset: displacement, child: Box::new(p) }
    }
}

impl ConstantMedium {
    /// A medium of the given density inside the boundary, with the index of
    /// its isotropic phase material.
    pub fn new1(boundary: Object, density: i64, phase: usize) -> (r: ConstantMedium)
        ensures
            *r.boundary == boundary,
            r.neg_inv_density == fx_div_s(-(FX_ONE as int), density as int),
            r.phase == phase,
    {
        ConstantMedium {
            boundary: Box::new(boundary),
            neg_inv_density: fx_div(-FX_ONE, density),
            phase,
        }
    }
}

impl RotateY {
    /// Rotate a child by an angle in degrees about the y axis: the sine and
    /// cosine are fixed now, and the box is the extent of the child box's
    /// eight rotated corners.
    pub fn new(p: Object, angle: i64) -> (r: RotateY)
        ensures
            *r.child == p,
            r.sin_theta == crate::fx::fx_sin_s(crate::fx::degrees_to_radians_s(angle as int)),
            r.cos_theta == crate::fx::fx_cos_s(crate::fx::degrees_to_radians_s(angle as int)),
            r.has_box == (object_box_s(p, 0, FX_ONE as int) is Some),
            r.bbox == (match object_box_s(p, 0, FX_ONE as int) {
                Some(bb) => rot_box_s(bb, r.sin_theta as int, r.cos_theta as int),
                None => rot_box_s(
                    AABB {
                        minimum: Vec3 { x: 0i64, y: 0i64, z: 0i64 },
                        maximum: Vec3 { x: 0i64, y: 0i64, z: 0i64 },
                    },
                    r.sin_theta as int, r.cos_theta as int),
            }),
    {
        let radians = crate::fx::degrees_to_radians(angle);
        let sin_theta = crate::fx::fx_sin(radians);
        let cos_theta = crate::fx::fx_cos(radians);
        let (bb, has_box) = match p.bounding_box(0, FX_ONE) {
            Some(bb) => (bb, true),
            None => (AABB::new(Vec3::zero(), Vec3::zero()), false),
        };
        let c0 = rot_out(&Vec3::new(bb.minimum.x, bb.minimum.y, bb.minimum.z), sin_theta, cos_theta);
        let c1 = rot_out(&Vec3::new(bb.minimum.x, bb.minimum.y, bb.maximum.z), sin_theta, cos_theta);
        let c2 = rot_out(&Vec3::new(bb.minimum.x, bb.maximum.y, bb.minimum.z), sin_theta, cos_theta);
        let c3 = rot_out(&Vec3::new(bb.minimum.x, bb.maximum.y, bb.maximum.z), sin_theta, cos_theta);
        let c4 = rot_out(&Vec3::new(bb.maximum.x, bb.minimum.y, bb.minimum.z), sin_theta, cos_theta);
        let c5 = rot_out(&Vec3::new(bb.maximum.x, bb.minimum.y, bb.maximum.z), sin_theta, cos_theta);
        let c6 = rot_out(&Vec3::new(bb.maximum.x, bb.maximum.y, bb.minimum.z), sin_theta, cos_theta);
        let c7 = rot_out(&Vec3::new(bb.maximum.x, bb.maximum.y, bb.maximum.z), sin_theta, cos_theta);
        let lo = Vec3::new(
            fmin(fmin(fmin(c0.x, c1.x), fmin(c2.x, c3.x)), fmin(fmin(c4.x, c5.x), fmin(c6.x, c7.x))),
            fmin(fmin(fmin(c0.y, c1.y), fmin(c2.y, c3.y)), fmin(fmin(c4.y, c5.y), fmin(c6.y, c7.y))),
            fmin(fmin(fmin(c0.z, c1.z), fmin(c2.z, c3.z)), fmin(fmin(c4.z, c5.z), fmin(c6.z, c7.z))),
        );
        let hi = Vec3::new(
            fmax(fmax(fmax(c0.x, c1.x), fmax(c2.x, c3.x)), fmax(fmax(c4.x, c5.x), fmax(c6.x, c7.x))),
            fmax(fmax(fmax(c0.y, c1.y), fmax(c2.y, c3.y)), fmax(fmax(c4.y, c5.y), fmax(c6.y, c7.y))),
            fmax(fmax(fmax(c0.z, c1.z), fmax(c2.z, c3.z)), fmax(fmax(c4.z, c5.z), fmax(c6.z, c7.z))),
        );
        RotateY { sin_theta, cos_theta, has_box, bbox: AABB::new(lo, hi), child: Box::new(p) }
    }
}

impl Box_ {
    /// A rectangular prism between two opposite corners, as six rectangles
    /// sharing one material.
    pub fn new(p0: Vec3, p1: Vec3, mat: usize) -> (r: Box_)
        ensures
            r.box_min == p0,
            r.box_max == p1,
            r.sides.objects@.len() == 6,
            r.sides.objects@[0] == Object::XyRect(
                XyRect { x0: p0.x, x1: p1.x, y0: p0.y, y1: p1.y, k: p1.z, mat }),
            r.sides.objects@[1] == Object::XyRect(
                XyRect { x0: p0.x, x1: p1.x, y0: p0.y, y1: p1.y, k: p0.z, mat }),
            r.sides.objects@[2] == Object::XzRect(
                XzRect { x0: p0.x, x1: p1.x, z0: p0.z, z1: p1.z, k: p1.y, mat }),
            r.sides.objects@[3] == Object::XzRect(
                XzRect { x0: p0.x, x1: p1.x, z0: p0.z, z1: p1.z, k: p0.y, mat }),
            r.sides.objects@[4] == Object::YzRect(
                YzRect { y0: p0.y, y1: p1.y, z0: p0.z, z1: p1.z, k: p1.x, mat }),
            r.sides.objects@[5] == Object::YzRect(
                YzRect { y0: p0.y, y1: p1.y, z0: p0.z, z1: p1.z, k: p0.x, mat }),
    {
        let mut s = HittableList::new();
        s.add(Object::XyRect(XyRect::new(p0.x, p1.x, p0.y, p1.y, p1.z, mat)));
        s.add(Object::XyRect(XyRect::new(p0.x, p1.x, p0.y, p1.y, p0.z, mat)));
        s.add(Object::XzRect(XzRect::new(p0.x, p1.x, p0.z, p1.z, p1.y, mat)));
        s.add(Object::XzRect(XzRect::new(p0.x, p1.x, p0.z, p1.z, p0.y, mat)));
        s.add(Object::YzRect(YzRect::new(p0.y, p1.y, p0.z, p1.z, p1.x, mat)));
        s.add(Object::YzRect(YzRect::new(p0.y, p1.y, p0.z, p1.z, p0.x, mat)));
        Box_ { box_min: p0, box_max: p1, sides: s }
    }
}

/// All members bounded elementwise make the whole sequence bounded.
pub proof fn lemma_seq_mats_below_intro(s: Seq<Object>, n: int)
    requires
        forall|i: int| 0 <= i < s.len() ==> mats_below_s(#[trigger] s[i], n),
    ensures
        seq_mats_below_s(s, n),
    decreases s.len(),
{
    if s.len() > 0 {
        assert forall|i: int| 0 <= i < s.drop_last().len() implies
            mats_below_s(#[trigger] s.drop_last()[i], n) by {
            assert(s.drop_last()[i] == s[i]);
        }
        lemma_seq_mats_below_intro(s.drop_last(), n);
        assert(s.last() == s[s.len() - 1]);
    }
}

impl Object {
    /// Check at run time that every material index is below `n` (for
    /// callers outside the verified world that must establish it).
    pub fn mats_below(&self, n: usize) -> (r: bool)
        ensures
            r == mats_below_s(*self, n as int),
        decreases *self,
    {
        match self {
            Object::Sphere(sp) => sp.mat < n,
            Object::MovingSphere(ms) => ms.mat < n,
            Object::XyRect(rc) => rc.mat < n,
            Object::XzRect(rc) => rc.mat < n,
            Object::YzRect(rc) => rc.mat < n,
            Object::Triangle(tr) => tr.mat < n,
            Object::Prism(bx) => {
                proof {
                    assert(decreases_to!(*self => bx.sides));
                }
                list_mats_below(&bx.sides, n)
            },
            Object::List(hl) => {
                proof {
                    assert(decreases_to!(*self => *hl));
                }
                list_mats_below(hl, n)
            },
            Object::Flip(f) => {
                proof {
                    assert(decreases_to!(*self => *f.child));
                }
                f.child.mats_below(n)
            },
            Object::Translated(t) => {
                proof {
                    assert(decreases_to!(*self => *t.child));
                }
                t.child.mats_below(n)
            },
            Object::Rotated(ro) => {
                proof {
                    assert(decreases_to!(*self => *ro.child));
                }
                ro.child.mats_below(n)
            },
            Object::Medium(cm) => {
                proof {
                    assert(decreases_to!(*self => *cm.boundary));
                }
                cm.phase < n && cm.boundary.mats_below(n)
            },
            Object::Bvh(b) => {
                proof {
                    assert(decreases_to!(*self => *b.left));
                    assert(decreases_to!(*self => *b.right));
                }
                b.left.mats_below(n) && b.right.mats_below(n)
            },
        }
    }
}

/// The member-by-member check behind `Object::mats_below`.
fn list_mats_below(hl: &HittableList, n: usize) -> (r: bool)
    ensures
        r == seq_mats_below_s(hl.objects@, n as int),
    decreases *hl,
{
    let mut i: usize = 0;
    while i < hl.objects.len()
        invariant
            0 <= i <= hl.objects@.len(),
            forall|j: int| 0 <= j < i ==> mats_below_s(#[trigger] hl.objects@[j], n as int),
        decreases hl.objects@.len() - i,
    {
        proof {
            assert(decreases_to!(*hl => hl.objects));
            assert(decreases_to!(hl.objects => hl.objects@));
            assert(decreases_to!(hl.objects@ => hl.objects@[i as int]));
        }
        if !hl.objects[i].mats_below(n) {
            proof {
                if seq_mats_below_s(hl.objects@, n as int) {
                    lemma_seq_mats_below(hl.objects@, n as int, i as int);
                }
            }
            return false;
        }
        i = i + 1;
    }
    proof {
        lemma_seq_mats_below_intro(hl.objects@, n as int);
    }
    true
}

} // verus!
