//! The camera: viewport coordinates to world-space rays.

use vstd::prelude::*;
use crate::fx::{FX_ONE, FX_TWO, degrees_to_radians, degrees_to_radians_s,
    fx_mul, fx_div, fx_sin, fx_cos};
use crate::fx::{fx_mul_s, fx_div_s, fx_sin_s, fx_cos_s};
use crate::vec3::{Vec3, v3_add_s, v3_sub_s, v3_scale_s, v3_div_s, v3_cross_s, v3_unit_s,
    v3_len_sq_s, random_in_unit_disk};
use crate::ray::Ray;
use crate::rng::random_range_or_min;

verus! {

/// The precomputed viewport frame.
#[derive(Clone, Copy, Debug, PartialEq, Eq, Structural)]
pub struct Camera {
    pub origin: Vec3,
    pub lower_left_corner: Vec3,
    pub horizontal: Vec3,
    pub vertical: Vec3,
    pub u: Vec3,
    pub v: Vec3,
    pub w: Vec3,
    pub lens_radius: i64,
    pub time0: i64,
    pub time1: i64,
}

/// The tangent as the ratio of sine and cosine.
pub open spec fn fx_tan_s(t: int) -> int {
    fx_div_s(fx_sin_s(t), fx_cos_s(t))
}

/// The camera a given parameter set produces.
pub open spec fn camera_make_s(lookfrom: Vec3, lookat: Vec3, vup: Vec3, vfov: int,
    aspect_ratio: int, aperture: int, focus_dist: int, time0: i64, time1: i64) -> Camera {
    let theta = degrees_to_radians_s(vfov);
    let h = fx_tan_s(fx_div_s(theta, FX_TWO as int));
    let viewport_height = fx_mul_s(FX_TWO as int, h);
    let viewport_width = fx_mul_s(aspect_ratio, viewport_height);
    let w1 = v3_unit_s(v3_sub_s(lookfrom, lookat));
    let u1 = v3_unit_s(v3_cross_s(vup, w1));
    let v1 = v3_cross_s(w1, u1);
    let horizontal = v3_scale_s(v3_scale_s(u1, viewport_width), focus_dist);
    let vertical = v3_scale_s(v3_scale_s(v1, viewport_height), focus_dist);
    Camera {
        origin: lookfrom,
        lower_left_corner: v3_sub_s(
            v3_sub_s(
                v3_sub_s(lookfrom, v3_div_s(horizontal, FX_TWO as int)),
                v3_div_s(vertical, FX_TWO as int),
            ),
            v3_scale_s(w1, focus_dist),
        ),
        horizontal,
        vertical,
        u: u1,
        v: v1,
        w: w1,
        lens_radius: fx_div_s(aperture, FX_TWO as int) as i64,
        time0,
        time1,
    }
}

/// The ray the camera casts for viewport coordinates `(s, t)`, a lens-disk
/// sample `rd` and a shutter time.
pub open spec fn get_ray_s(cam: Camera, s: int, t: int, rd: Vec3, time: i64) -> Ray {
    let scaled = v3_scale_s(rd, cam.lens_radius as int);
    let offset = v3_add_s(v3_scale_s(cam.u, scaled.x as int), v3_scale_s(cam.v, scaled.y as int));
    Ray {
        orig: v3_add_s(cam.origin, offset),
        dir: v3_sub_s(
            v3_sub_s(
                v3_add_s(
                    v3_add_s(cam.lower_left_corner, v3_scale_s(cam.horizontal, s)),
                    v3_scale_s(cam.vertical, t),
                ),
                cam.origin,
            ),
            offset,
        ),
        time,
    }
}

impl Camera {
    /// Build a camera from the usual parameters; the field of view is in
    /// degrees, the shutter is open on `[time0, time1]`.
    #[allow(clippy::too_many_arguments)]
    pub fn new(lookfrom: Vec3, lookat: Vec3, vup: Vec3, vfov: i64, aspect_ratio: i64,
        aperture: i64, focus_dist: i64, time0: i64, time1: i64) -> (r: Camera)
        ensures
            r == camera_make_s(lookfrom, lookat, vup, vfov as int, aspect_ratio as int,
                aperture as int, focus_dist as int, time0, time1),
    {
        let theta = degrees_to_radians(vfov);
        let t2 = fx_div(theta, FX_TWO);
        let h = fx_div(fx_sin(t2), fx_cos(t2));
        let viewport_height = fx_mul(FX_TWO, h);
        let viewport_width = fx_mul(aspect_ratio, viewport_height);
        let w1 = lookfrom.sub(&lookat).unit();
        let u1 = Vec3::cross(vup, w1).unit();
        let v1 = Vec3::cross(w1, u1);
        let horizontal = u1.scale(viewport_width).scale(focus_dist);
        let vertical = v1.scale(viewport_height).scale(focus_dist);
        Camera {
            origin: lookfrom,
            lower_left_corner: lookfrom
                .sub(&horizontal.divide(FX_TWO))
                .sub(&vertical.divide(FX_TWO))
                .sub(&w1.scale(focus_dist)),
            horizontal,
            vertical,
            u: u1,
            v: v1,
            w: w1,
            lens_radius: fx_div(aperture, FX_TWO),
            time0,
            time1,
        }
    }

    /// Cast the ray for viewport coordinates `(s, t)`: a lens-disk sample
    /// offsets the origin and the shutter time is drawn from the interval.
    pub fn get_ray(&self, s: i64, t: i64) -> (r: Ray)
        ensures
            exists|rd: Vec3| v3_len_sq_s(rd) < FX_ONE
                && r == #[trigger] get_ray_s(*self, s as int, t as int, rd, r.time),
            self.time0 < self.time1 ==> self.time0 <= r.time < self.time1,
            self.time0 >= self.time1 ==> r.time == self.time0,
    {
        let rd = random_in_unit_disk();
        let time = random_range_or_min(self.time0, self.time1);
        let scaled = rd.scale(self.lens_radius);
        let offset = self.u.scale(scaled.x).add(&self.v.scale(scaled.y));
        let r = Ray::new(
            self.origin.add(&offset),
            self.lower_left_corner
                .add(&self.horizontal.scale(s))
                .add(&self.vertical.scale(t))
                .sub(&self.origin)
                .sub(&offset),
            time,
        );
        proof {
            assert(r.time == time);
            assert(r == get_ray_s(*self, s as int, t as int, rd, r.time));
        }
        r
    }
}

} // verus!
