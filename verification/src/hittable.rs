//! The hit record produced by every intersection query.
//!
//! Materials live in a table owned by the scene; a record refers to the
//! material at the hit point by its index in that table.

use vstd::prelude::*;
use crate::vec3::{Vec3, v3_dot_s, v3_neg_s, v3_ok};
use crate::ray::Ray;

verus! {

/// Everything the integrator needs to know about one intersection.
#[derive(Clone, Copy, Debug, PartialEq, Eq, Structural)]
pub struct HitRecord {
    /// The hit point.
    pub p: Vec3,
    /// The surface normal, oriented against the incoming ray.
    pub normal: Vec3,
    /// The ray parameter of the hit.
    pub t: i64,
    /// Index of the material at the hit point in the scene's material table.
    pub mat: usize,
    /// Whether the geometric normal already opposed the incoming ray.
    pub front_face: bool,
    /// First texture coordinate.
    pub u: i64,
    /// Second texture coordinate.
    pub v: i64,
}

/// The ray meets the outward normal head on.
pub open spec fn is_front_face_s(r: Ray, outward: Vec3) -> bool {
    v3_dot_s(r.dir, outward) < 0
}

/// The stored normal: the outward normal, flipped when the ray arrives from
/// behind, so that it always opposes the ray.
pub open spec fn face_normal_s(r: Ray, outward: Vec3) -> Vec3 {
    if is_front_face_s(r, outward) {
        outward
    } else {
        v3_neg_s(outward)
    }
}

impl HitRecord {
    /// Build a record with zeroed texture coordinates.
    pub fn new(p: Vec3, normal: Vec3, t: i64, mat: usize, front_face: bool) -> (r: HitRecord)
        ensures
            r == (HitRecord { p, normal, t, mat, front_face, u: 0i64, v: 0i64 }),
    {
        HitRecord { p, normal, t, mat, front_face, u: 0, v: 0 }
    }

    /// Record the face orientation against the incoming ray.
    pub fn set_face_normal(&mut self, r: &Ray, outward_normal: Vec3)
        ensures
            final(self).front_face == is_front_face_s(*r, outward_normal),
            final(self).normal == face_normal_s(*r, outward_normal),
            v3_ok(outward_normal) ==> v3_ok(final(self).normal),
            final(self).p == old(self).p,
            final(self).t == old(self).t,
            final(self).mat == old(self).mat,
            final(self).u == old(self).u,
            final(self).v == old(self).v,
    {
        let d = Vec3::dot(r.dir, outward_normal);
        self.front_face = d < 0;
        if self.front_face {
            self.normal = outward_normal;
        } else {
            self.normal = outward_normal.neg();
        }
    }
}

} // verus!
