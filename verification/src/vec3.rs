//! Three-component fixed-point vectors, used as points, directions and colors.

use vstd::prelude::*;
use crate::fx;
use crate::fx::{fx_add, fx_sub, fx_neg, fx_mul, fx_div, fx_sqrt};
use crate::fx::{sat_s, fx_mul_s, fx_div_s, fx_sqrt_s, fx_ok, min_i};

verus! {

/// An ordered triple of fixed-point scalars.
#[derive(Clone, Copy, Debug, PartialEq, Eq, Structural)]
pub struct Vec3 {
    pub x: i64,
    pub y: i64,
    pub z: i64,
}

/// All three components are in the representable range.
pub open spec fn v3_ok(a: Vec3) -> bool {
    fx_ok(a.x as int) && fx_ok(a.y as int) && fx_ok(a.z as int)
}

/// Component-wise saturating sum.
pub open spec fn v3_add_s(a: Vec3, b: Vec3) -> Vec3 {
    Vec3 { x: sat_s(a.x + b.x) as i64, y: sat_s(a.y + b.y) as i64, z: sat_s(a.z + b.z) as i64 }
}

/// Component-wise saturating difference.
pub open spec fn v3_sub_s(a: Vec3, b: Vec3) -> Vec3 {
    Vec3 { x: sat_s(a.x - b.x) as i64, y: sat_s(a.y - b.y) as i64, z: sat_s(a.z - b.z) as i64 }
}

/// Component-wise negation.
pub open spec fn v3_neg_s(a: Vec3) -> Vec3 {
    Vec3 { x: sat_s(-a.x) as i64, y: sat_s(-a.y) as i64, z: sat_s(-a.z) as i64 }
}

/// Scaling by a fixed-point scalar.
pub open spec fn v3_scale_s(a: Vec3, t: int) -> Vec3 {
    Vec3 {
        x: fx_mul_s(a.x as int, t) as i64,
        y: fx_mul_s(a.y as int, t) as i64,
        z: fx_mul_s(a.z as int, t) as i64,
    }
}

/// Component-wise division by a fixed-point scalar.
pub open spec fn v3_div_s(a: Vec3, t: int) -> Vec3 {
    Vec3 {
        x: fx_div_s(a.x as int, t) as i64,
        y: fx_div_s(a.y as int, t) as i64,
        z: fx_div_s(a.z as int, t) as i64,
    }
}

/// Dot product, accumulated with saturating sums.
pub open spec fn v3_dot_s(a: Vec3, b: Vec3) -> int {
    sat_s(
        sat_s(fx_mul_s(a.x as int, b.x as int) + fx_mul_s(a.y as int, b.y as int))
            + fx_mul_s(a.z as int, b.z as int),
    )
}

/// Cross product.
pub open spec fn v3_cross_s(a: Vec3, b: Vec3) -> Vec3 {
    Vec3 {
        x: sat_s(fx_mul_s(a.y as int, b.z as int) - fx_mul_s(a.z as int, b.y as int)) as i64,
        y: sat_s(fx_mul_s(a.z as int, b.x as int) - fx_mul_s(a.x as int, b.z as int)) as i64,
        z: sat_s(fx_mul_s(a.x as int, b.y as int) - fx_mul_s(a.y as int, b.x as int)) as i64,
    }
}

/// Squared length.
pub open spec fn v3_len_sq_s(a: Vec3) -> int {
    v3_dot_s(a, a)
}

/// Length: the fixed-point square root of the squared length.
pub open spec fn v3_len_s(a: Vec3) -> int {
    fx_sqrt_s(v3_len_sq_s(a))
}

/// Normalization: division by the length (saturates for the zero vector).
pub open spec fn v3_unit_s(a: Vec3) -> Vec3 {
    v3_div_s(a, v3_len_s(a))
}

/// Component selection by axis index.
pub open spec fn v3_get_s(a: Vec3, axis: int) -> int {
    if axis == 0 {
        a.x as int
    } else if axis == 1 {
        a.y as int
    } else {
        a.z as int
    }
}

impl Vec3 {
    /// Build a vector from its components.
    pub fn new(x: i64, y: i64, z: i64) -> (r: Vec3)
        ensures
            r == (Vec3 { x, y, z }),
    {
        Vec3 { x, y, z }
    }

    /// The zero vector.
    pub fn zero() -> (r: Vec3)
        ensures
            r == (Vec3 { x: 0i64, y: 0i64, z: 0i64 }),
    {
        Vec3 { x: 0, y: 0, z: 0 }
    }

    /// The all-ones vector (one in fixed point).
    pub fn ones() -> (r: Vec3)
        ensures
            r == (Vec3 { x: fx::FX_ONE, y: fx::FX_ONE, z: fx::FX_ONE }),
    {
        Vec3 { x: fx::FX_ONE, y: fx::FX_ONE, z: fx::FX_ONE }
    }

    /// Component by axis index: 0 is x, 1 is y, anything else z.
    pub fn get(&self, axis: usize) -> (r: i64)
        ensures
            r == v3_get_s(*self, axis as int),
    {
        if axis == 0 {
            self.x
        } else if axis == 1 {
            self.y
        } else {
            self.z
        }
    }

    /// Component-wise sum.
    pub fn add(&self, o: &Vec3) -> (r: Vec3)
        ensures
            r == v3_add_s(*self, *o),
            v3_ok(r),
    {
        Vec3 { x: fx_add(self.x, o.x), y: fx_add(self.y, o.y), z: fx_add(self.z, o.z) }
    }

    /// Component-wise difference.
    pub fn sub(&self, o: &Vec3) -> (r: Vec3)
        ensures
            r == v3_sub_s(*self, *o),
            v3_ok(r),
    {
        Vec3 { x: fx_sub(self.x, o.x), y: fx_sub(self.y, o.y), z: fx_sub(self.z, o.z) }
    }

    /// Component-wise negation.
    pub fn neg(&self) -> (r: Vec3)
        ensures
            r == v3_neg_s(*self),
            v3_ok(r),
    {
        Vec3 { x: fx_neg(self.x), y: fx_neg(self.y), z: fx_neg(self.z) }
    }

    /// Scale by a fixed-point scalar.
    pub fn scale(&self, t: i64) -> (r: Vec3)
        ensures
            r == v3_scale_s(*self, t as int),
            v3_ok(r),
    {
        Vec3 { x: fx_mul(self.x, t), y: fx_mul(self.y, t), z: fx_mul(self.z, t) }
    }

    /// Divide each component by a fixed-point scalar.
    pub fn divide(&self, t: i64) -> (r: Vec3)
        ensures
            r == v3_div_s(*self, t as int),
            v3_ok(r),
    {
        Vec3 { x: fx_div(self.x, t), y: fx_div(self.y, t), z: fx_div(self.z, t) }
    }

    /// Dot product of two vectors.
    pub fn dot(a: Vec3, b: Vec3) -> (r: i64)
        ensures
            r == v3_dot_s(a, b),
            fx_ok(r as int),
    {
        fx_add(fx_add(fx_mul(a.x, b.x), fx_mul(a.y, b.y)), fx_mul(a.z, b.z))
    }

    /// Cross product of two vectors.
    pub fn cross(a: Vec3, b: Vec3) -> (r: Vec3)
        ensures
            r == v3_cross_s(a, b),
            v3_ok(r),
    {
        Vec3 {
            x: fx_sub(fx_mul(a.y, b.z), fx_mul(a.z, b.y)),
            y: fx_sub(fx_mul(a.z, b.x), fx_mul(a.x, b.z)),
            z: fx_sub(fx_mul(a.x, b.y), fx_mul(a.y, b.x)),
        }
    }

    /// Squared length.
    pub fn len_squared(&self) -> (r: i64)
        ensures
            r == v3_len_sq_s(*self),
            fx_ok(r as int),
    {
        Vec3::dot(*self, *self)
    }

    /// Squared length (alias kept for symmetry with the length).
    pub fn squared_length(&self) -> (r: i64)
        ensures
            r == v3_len_sq_s(*self),
            fx_ok(r as int),
    {
        self.len_squared()
    }

    /// Length of the vector.
    pub fn len(&self) -> (r: i64)
        ensures
            r == v3_len_s(*self),
            0 <= r <= fx::FX_INF,
    {
        fx_sqrt(self.len_squared())
    }

    /// The unit vector in the same direction; saturates on the zero vector.
    pub fn unit(&self) -> (r: Vec3)
        ensures
            r == v3_unit_s(*self),
            v3_ok(r),
    {
        let l = self.len();
        self.divide(l)
    }
}

/// All three components are nonnegative.
pub open spec fn v3_nonneg_s(a: Vec3) -> bool {
    a.x >= 0 && a.y >= 0 && a.z >= 0
}

/// Componentwise order: every component of `a` is at least the matching
/// component of `b`.
pub open spec fn v3_ge_s(a: Vec3, b: Vec3) -> bool {
    a.x >= b.x && a.y >= b.y && a.z >= b.z
}

/// Component-wise product (used for color attenuation).
pub open spec fn v3_mul_comp_s(a: Vec3, b: Vec3) -> Vec3 {
    Vec3 {
        x: fx_mul_s(a.x as int, b.x as int) as i64,
        y: fx_mul_s(a.y as int, b.y as int) as i64,
        z: fx_mul_s(a.z as int, b.z as int) as i64,
    }
}

/// Reflection of `v` about the normal `n`: `v - 2 (v·n) n`.
pub open spec fn reflect_s(v: Vec3, n: Vec3) -> Vec3 {
    v3_sub_s(v, v3_scale_s(n, fx_mul_s(crate::fx::FX_TWO as int, v3_dot_s(v, n))))
}

/// Refraction of the unit direction `uv` at the normal `n` with relative
/// index `etai_over_etat`: the perpendicular part scaled by the index plus
/// the parallel part from the remaining length.
pub open spec fn refract_s(uv: Vec3, n: Vec3, etai_over_etat: int) -> Vec3 {
    let cos_theta = crate::fx::min_i(v3_dot_s(v3_neg_s(uv), n), crate::fx::FX_ONE as int);
    let r_out_perp = v3_scale_s(v3_add_s(uv, v3_scale_s(n, cos_theta)), etai_over_etat);
    let par_len = crate::fx::fx_sqrt_s(sat_s(crate::fx::abs_i(
        sat_s((crate::fx::FX_ONE as int) - v3_len_sq_s(r_out_perp)))));
    v3_add_s(r_out_perp, v3_scale_s(n, sat_s(-par_len)))
}

impl Vec3 {
    /// Component-wise product.
    pub fn mul_comp(&self, o: &Vec3) -> (r: Vec3)
        ensures
            r == v3_mul_comp_s(*self, *o),
            v3_ok(r),
    {
        Vec3 {
            x: crate::fx::fx_mul(self.x, o.x),
            y: crate::fx::fx_mul(self.y, o.y),
            z: crate::fx::fx_mul(self.z, o.z),
        }
    }
}

/// Reflection of `v` about the normal `n`.
pub fn reflect(v: Vec3, n: Vec3) -> (r: Vec3)
    ensures
        r == reflect_s(v, n),
        v3_ok(r),
{
    v.sub(&n.scale(crate::fx::fx_mul(crate::fx::FX_TWO, Vec3::dot(v, n))))
}

/// Refraction of the unit direction `uv` at the normal `n`.
pub fn refract(uv: Vec3, n: Vec3, etai_over_etat: i64) -> (r: Vec3)
    ensures
        r == refract_s(uv, n, etai_over_etat as int),
        v3_ok(r),
{
    let d = Vec3::dot(uv.neg(), n);
    let cos_theta = crate::fx::fmin(d, crate::fx::FX_ONE);
    let r_out_perp = uv.add(&n.scale(cos_theta)).scale(etai_over_etat);
    let par_len = crate::fx::fx_sqrt(crate::fx::fx_abs(
        crate::fx::fx_sub(crate::fx::FX_ONE, r_out_perp.len_squared())));
    r_out_perp.add(&n.scale(crate::fx::fx_neg(par_len)))
}

/// A uniform draw from the open unit ball.
pub fn random_in_unit_sphere() -> (r: Vec3)
    ensures
        v3_ok(r),
        v3_len_sq_s(r) < crate::fx::FX_ONE,
{
    let mut tries: u32 = 0;
    while tries < 64
        invariant
            tries <= 64,
        decreases 64 - tries,
    {
        let v = Vec3::new(
            crate::rng::random_range(-crate::fx::FX_ONE, crate::fx::FX_ONE),
            crate::rng::random_range(-crate::fx::FX_ONE, crate::fx::FX_ONE),
            crate::rng::random_range(-crate::fx::FX_ONE, crate::fx::FX_ONE),
        );
        if v.len_squared() < crate::fx::FX_ONE {
            return v;
        }
        tries = tries + 1;
    }
    Vec3::zero()
}

/// A uniform draw from the open unit disk in the xy plane.
pub fn random_in_unit_disk() -> (r: Vec3)
    ensures
        v3_ok(r),
        v3_len_sq_s(r) < crate::fx::FX_ONE,
        r.z == 0,
{
    let mut tries: u32 = 0;
    while tries < 64
        invariant
            tries <= 64,
        decreases 64 - tries,
    {
        let v = Vec3::new(
            crate::rng::random_range(-crate::fx::FX_ONE, crate::fx::FX_ONE),
            crate::rng::random_range(-crate::fx::FX_ONE, crate::fx::FX_ONE),
            0,
        );
        if v.len_squared() < crate::fx::FX_ONE {
            return v;
        }
        tries = tries + 1;
    }
    Vec3::zero()
}

/// Component products of nonnegative vectors are nonnegative.
pub proof fn lemma_v3_mul_comp_nonneg(a: Vec3, b: Vec3)
    requires
        v3_nonneg_s(a),
        v3_nonneg_s(b),
    ensures
        v3_nonneg_s(v3_mul_comp_s(a, b)),
{
    crate::fx::lemma_fx_mul_nonneg(a.x as int, b.x as int);
    crate::fx::lemma_fx_mul_nonneg(a.y as int, b.y as int);
    crate::fx::lemma_fx_mul_nonneg(a.z as int, b.z as int);
}

/// Scaling a nonnegative vector by a nonnegative scalar stays nonnegative.
pub proof fn lemma_v3_scale_nonneg(a: Vec3, t: int)
    requires
        v3_nonneg_s(a),
        t >= 0,
    ensures
        v3_nonneg_s(v3_scale_s(a, t)),
{
    crate::fx::lemma_fx_mul_nonneg(a.x as int, t);
    crate::fx::lemma_fx_mul_nonneg(a.y as int, t);
    crate::fx::lemma_fx_mul_nonneg(a.z as int, t);
}

/// Dividing a nonnegative vector by a nonnegative scalar stays nonnegative.
pub proof fn lemma_v3_div_nonneg(a: Vec3, t: int)
    requires
        v3_nonneg_s(a),
        t >= 0,
    ensures
        v3_nonneg_s(v3_div_s(a, t)),
{
    crate::fx::lemma_fx_div_nonneg(a.x as int, t);
    crate::fx::lemma_fx_div_nonneg(a.y as int, t);
    crate::fx::lemma_fx_div_nonneg(a.z as int, t);
}

/// Sums of nonnegative vectors are nonnegative.
pub proof fn lemma_v3_add_nonneg(a: Vec3, b: Vec3)
    requires
        v3_nonneg_s(a),
        v3_nonneg_s(b),
    ensures
        v3_nonneg_s(v3_add_s(a, b)),
{
}

} // verus!
