//! Orthonormal bases built around a normal vector.

use vstd::prelude::*;
use crate::vec3::{Vec3, v3_add_s, v3_scale_s, v3_cross_s, v3_unit_s, v3_ok};

verus! {

/// An orthonormal basis: three mutually perpendicular unit vectors.
#[derive(Clone, Copy, Debug, PartialEq, Eq, Structural)]
pub struct Onb {
    pub u: Vec3,
    pub v: Vec3,
    pub w: Vec3,
}

/// A coordinate triple carried into the basis.
pub open spec fn onb_local_s(b: Onb, a: Vec3) -> Vec3 {
    v3_add_s(
        v3_add_s(v3_scale_s(b.u, a.x as int), v3_scale_s(b.v, a.y as int)),
        v3_scale_s(b.w, a.z as int),
    )
}

/// The helper axis used to seed the basis: mostly-x normals pick a y-leaning
/// seed, all others the diagonal seed.
pub open spec fn onb_seed_s(w1: Vec3) -> Vec3 {
    if w1.x > 58982 || w1.x < -58982 {
        Vec3 { x: 0i64, y: 65536i64, z: 65536i64 }
    } else {
        Vec3 { x: 65536i64, y: 0i64, z: 65536i64 }
    }
}

/// The basis grown around a normal: `w` is the unit normal, `v` the unit
/// cross of `w` with the seed, `u` the cross of `w` and `v`.
pub open spec fn onb_from_w_s(n1: Vec3) -> Onb {
    let w1 = v3_unit_s(n1);
    let a1 = onb_seed_s(w1);
    let v1 = v3_unit_s(v3_cross_s(w1, a1));
    let u1 = v3_cross_s(w1, v1);
    Onb { u: u1, v: v1, w: w1 }
}

impl Onb {
    /// Carry basis-local coordinates into world space.
    pub fn local1(&self, a: &Vec3) -> (r: Vec3)
        ensures
            r == onb_local_s(*self, *a),
            v3_ok(r),
    {
        self.u.scale(a.x).add(&self.v.scale(a.y)).add(&self.w.scale(a.z))
    }

    /// Build the basis around a normal.
    pub fn build_from_w(n1: &Vec3) -> (r: Onb)
        ensures
            r == onb_from_w_s(*n1),
            v3_ok(r.u) && v3_ok(r.v) && v3_ok(r.w),
    {
        let w1 = n1.unit();
        let a1 = if w1.x > 58982 || w1.x < -58982 {
            Vec3::new(0, 65536, 65536)
        } else {
            Vec3::new(65536, 0, 65536)
        };
        let v1 = Vec3::cross(w1, a1).unit();
        let u1 = Vec3::cross(w1, v1);
        Onb { u: u1, v: v1, w: w1 }
    }
}

} // verus!
