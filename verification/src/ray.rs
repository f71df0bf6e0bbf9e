//! Rays: a half-line with an origin, a direction and a time of cast.

use vstd::prelude::*;
use crate::vec3::{Vec3, v3_add_s, v3_scale_s, v3_ok};

verus! {

/// A ray, tagged with a shutter time for motion blur.
#[derive(Clone, Copy, Debug, PartialEq, Eq, Structural)]
pub struct Ray {
    pub orig: Vec3,
    pub dir: Vec3,
    pub time: i64,
}

/// The point reached after parameter `t`: `orig + dir * t`.
pub open spec fn ray_at_s(r: Ray, t: int) -> Vec3 {
    v3_add_s(r.orig, v3_scale_s(r.dir, t))
}

impl Ray {
    /// Build a ray from origin, direction and time.
    pub fn new(orig: Vec3, dir: Vec3, time: i64) -> (r: Ray)
        ensures
            r == (Ray { orig, dir, time }),
    {
        Ray { orig, dir, time }
    }

    /// The ray with zero origin, direction and time.
    pub fn zero() -> (r: Ray)
        ensures
            r.orig == (Vec3 { x: 0i64, y: 0i64, z: 0i64 }),
            r.dir == (Vec3 { x: 0i64, y: 0i64, z: 0i64 }),
            r.time == 0,
    {
        Ray { orig: Vec3::zero(), dir: Vec3::zero(), time: 0 }
    }

    /// Evaluate the ray at parameter `t`.
    pub fn at(&self, t: i64) -> (p: Vec3)
        ensures
            p == ray_at_s(*self, t as int),
            v3_ok(p),
    {
        self.orig.add(&self.dir.scale(t))
    }
}

} // verus!
