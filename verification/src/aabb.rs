//! Axis-aligned bounding boxes and the slab intersection test.

use vstd::prelude::*;
use crate::fx::{fmin, fmax, fx_sub, fx_div, min_i, max_i, sat_s, fx_div_s, FX_ONE, lemma_div_t_exact};
use crate::vec3::{Vec3, v3_get_s};
use crate::ray::Ray;

verus! {

/// A box given by its minimum and maximum corner.
#[derive(Clone, Copy, Debug, PartialEq, Eq, Structural)]
pub struct AABB {
    pub minimum: Vec3,
    pub maximum: Vec3,
}

/// Narrow the running parameter interval by one slab.
///
/// A zero direction component constrains nothing when the origin lies inside
/// the slab (boundary included, so a degenerate box is still penetrable by a
/// ray on its plane) and rejects outright when it lies outside — the behavior
/// IEEE infinities give the floating-point formulation.
pub open spec fn slab_narrow_s(mn: int, mx: int, o: int, d: int, t0: int, t1: int) -> (int, int) {
    if d == 0 {
        if o < mn || o > mx {
            (t0, t0)
        } else {
            (t0, t1)
        }
    } else {
        let a = fx_div_s(sat_s(mn - o), d);
        let b = fx_div_s(sat_s(mx - o), d);
        let lo = if d < 0 { b } else { a };
        let hi = if d < 0 { a } else { b };
        (max_i(t0, lo), min_i(t1, hi))
    }
}

/// The slab test: narrow the interval axis by axis; the box is hit when a
/// nonempty interval survives all three. Zero-width overlap is a miss.
pub open spec fn aabb_hit_s(bb: AABB, r: Ray, t_min: int, t_max: int) -> bool {
    let px = slab_narrow_s(
        bb.minimum.x as int, bb.maximum.x as int, r.orig.x as int, r.dir.x as int, t_min, t_max);
    if px.1 <= px.0 {
        false
    } else {
        let py = slab_narrow_s(
            bb.minimum.y as int, bb.maximum.y as int, r.orig.y as int, r.dir.y as int, px.0, px.1);
        if py.1 <= py.0 {
            false
        } else {
            let pz = slab_narrow_s(
                bb.minimum.z as int, bb.maximum.z as int, r.orig.z as int, r.dir.z as int,
                py.0, py.1);
            pz.1 > pz.0
        }
    }
}

/// The tightest box containing two boxes.
pub open spec fn aabb_union_s(a: AABB, b: AABB) -> AABB {
    AABB {
        minimum: Vec3 {
            x: min_i(a.minimum.x as int, b.minimum.x as int) as i64,
            y: min_i(a.minimum.y as int, b.minimum.y as int) as i64,
            z: min_i(a.minimum.z as int, b.minimum.z as int) as i64,
        },
        maximum: Vec3 {
            x: max_i(a.maximum.x as int, b.maximum.x as int) as i64,
            y: max_i(a.maximum.y as int, b.maximum.y as int) as i64,
            z: max_i(a.maximum.z as int, b.maximum.z as int) as i64,
        },
    }
}

/// Narrow the interval by the slab of one axis.
fn slab_narrow(mn: i64, mx: i64, o: i64, d: i64, t0: i64, t1: i64) -> (r: (i64, i64))
    ensures
        (r.0 as int, r.1 as int) == slab_narrow_s(mn as int, mx as int, o as int, d as int,
            t0 as int, t1 as int),
{
    if d == 0 {
        if o < mn || o > mx {
            (t0, t0)
        } else {
            (t0, t1)
        }
    } else {
        let a = fx_div(fx_sub(mn, o), d);
        let b = fx_div(fx_sub(mx, o), d);
        let lo = if d < 0 { b } else { a };
        let hi = if d < 0 { a } else { b };
        (fmax(t0, lo), fmin(t1, hi))
    }
}

impl AABB {
    /// Build a box from its two corners.
    pub fn new(a: Vec3, b: Vec3) -> (r: AABB)
        ensures
            r == (AABB { minimum: a, maximum: b }),
    {
        AABB { minimum: a, maximum: b }
    }

    /// The tightest box containing both arguments.
    pub fn surrounding_box(box0: AABB, box1: AABB) -> (r: AABB)
        ensures
            r == aabb_union_s(box0, box1),
    {
        let small = Vec3::new(
            fmin(box0.minimum.x, box1.minimum.x),
            fmin(box0.minimum.y, box1.minimum.y),
            fmin(box0.minimum.z, box1.minimum.z),
        );
        let big = Vec3::new(
            fmax(box0.maximum.x, box1.maximum.x),
            fmax(box0.maximum.y, box1.maximum.y),
            fmax(box0.maximum.z, box1.maximum.z),
        );
        AABB { minimum: small, maximum: big }
    }

    /// The slab test against the interval `(t_min, t_max)`.
    pub fn hit(&self, r: &Ray, t_min: i64, t_max: i64) -> (res: bool)
        ensures
            res == aabb_hit_s(*self, *r, t_min as int, t_max as int),
    {
        let (tx0, tx1) = slab_narrow(
            self.minimum.x, self.maximum.x, r.orig.x, r.dir.x, t_min, t_max);
        if tx1 <= tx0 {
            return false;
        }
        let (ty0, ty1) = slab_narrow(
            self.minimum.y, self.maximum.y, r.orig.y, r.dir.y, tx0, tx1);
        if ty1 <= ty0 {
            return false;
        }
        let (tz0, tz1) = slab_narrow(
            self.minimum.z, self.maximum.z, r.orig.z, r.dir.z, ty0, ty1);
        tz1 > tz0
    }

    /// The box contains the point, boundary included.
    pub open spec fn contains_s(self, p: Vec3) -> bool {
        self.minimum.x <= p.x <= self.maximum.x
            && self.minimum.y <= p.y <= self.maximum.y
            && self.minimum.z <= p.z <= self.maximum.z
    }
}

/// A coordinate far enough from the saturation bound that slab arithmetic
/// on it is exact.
pub open spec fn coord_ok(x: int) -> bool {
    -0x10000000000 <= x <= 0x10000000000
}

/// A ray sent along one axis with unit direction, through the interior of
/// the box on the other axes, is accepted by the slab test exactly for the
/// parameter ranges that open onto the crossing interval
/// `(min - origin, max - origin)` on that axis: ranges entirely before or
/// after the crossing are rejected, ranges enclosing it are accepted.
pub proof fn lemma_hit_axis_crossing(bb: AABB, r: Ray, axis: int, t0: int, t1: int)
    requires
        0 <= axis < 3,
        forall|b: int| 0 <= b < 3 ==> coord_ok(v3_get_s(bb.minimum, b))
            && coord_ok(v3_get_s(bb.maximum, b)) && coord_ok(#[trigger] v3_get_s(r.orig, b)),
        coord_ok(t0),
        coord_ok(t1),
        t0 < t1,
        v3_get_s(r.dir, axis) == FX_ONE,
        forall|b: int| 0 <= b < 3 && b != axis ==> #[trigger] v3_get_s(r.dir, b) == 0,
        forall|b: int| 0 <= b < 3 && b != axis
            ==> v3_get_s(bb.minimum, b) <= #[trigger] v3_get_s(r.orig, b)
                <= v3_get_s(bb.maximum, b),
        v3_get_s(bb.minimum, axis) < v3_get_s(bb.maximum, axis),
    ensures
        aabb_hit_s(bb, r, t0, t1) == (t0 < v3_get_s(bb.maximum, axis) - v3_get_s(r.orig, axis)
            && v3_get_s(bb.minimum, axis) - v3_get_s(r.orig, axis) < t1),
{
    if axis == 0 {
        lemma_div_t_exact(bb.minimum.x - r.orig.x, FX_ONE as int);
        lemma_div_t_exact(bb.maximum.x - r.orig.x, FX_ONE as int);
        assert(v3_get_s(r.dir, 1) == 0);
        assert(v3_get_s(r.dir, 2) == 0);
        assert(v3_get_s(bb.minimum, 1) <= v3_get_s(r.orig, 1) <= v3_get_s(bb.maximum, 1));
        assert(v3_get_s(bb.minimum, 2) <= v3_get_s(r.orig, 2) <= v3_get_s(bb.maximum, 2));
    } else if axis == 1 {
        lemma_div_t_exact(bb.minimum.y - r.orig.y, FX_ONE as int);
        lemma_div_t_exact(bb.maximum.y - r.orig.y, FX_ONE as int);
        assert(v3_get_s(r.dir, 0) == 0);
        assert(v3_get_s(r.dir, 2) == 0);
        assert(v3_get_s(bb.minimum, 0) <= v3_get_s(r.orig, 0) <= v3_get_s(bb.maximum, 0));
        assert(v3_get_s(bb.minimum, 2) <= v3_get_s(r.orig, 2) <= v3_get_s(bb.maximum, 2));
    } else {
        lemma_div_t_exact(bb.minimum.z - r.orig.z, FX_ONE as int);
        lemma_div_t_exact(bb.maximum.z - r.orig.z, FX_ONE as int);
        assert(v3_get_s(r.dir, 0) == 0);
        assert(v3_get_s(r.dir, 1) == 0);
        assert(v3_get_s(bb.minimum, 0) <= v3_get_s(r.orig, 0) <= v3_get_s(bb.maximum, 0));
        assert(v3_get_s(bb.minimum, 1) <= v3_get_s(r.orig, 1) <= v3_get_s(bb.maximum, 1));
    }
}

/// A ray exactly parallel to a slab, with its origin outside that slab,
/// misses the box whatever the parameter range.
pub proof fn lemma_hit_parallel_outside(bb: AABB, r: Ray, axis: int, t0: int, t1: int)
    requires
        0 <= axis < 3,
        v3_get_s(r.dir, axis) == 0,
        v3_get_s(r.orig, axis) < v3_get_s(bb.minimum, axis)
            || v3_get_s(r.orig, axis) > v3_get_s(bb.maximum, axis),
    ensures
        !aabb_hit_s(bb, r, t0, t1),
{
    if axis == 0 {
    } else if axis == 1 {
    } else {
    }
}

} // verus!
