//! Direction-sampling strategies and their densities.

use vstd::prelude::*;
use crate::fx::{FX_ONE, FX_PI, fx_add, fx_div, fx_mul};
use crate::fx::{fx_div_s, fx_ok, sat_s};
use crate::vec3::{Vec3, v3_dot_s, v3_unit_s, v3_ok};
use crate::onb::{Onb, onb_from_w_s};
use crate::object::{Object, object_pdf_s, shape_sample_ok_s};
use crate::rng::random_unit;
use crate::materia::{random_cosine_direction, cosine_direction_s};

verus! {

/// Cosine-weighted hemisphere sampling around a normal.
pub struct CosinePdf {
    pub uvw: Onb,
}

/// Solid-angle sampling toward a shape from a fixed origin.
pub struct HittablePdf<'a> {
    pub o: Vec3,
    pub ptr: &'a Object,
}

/// The null strategy used for purely specular bounces: never queried.
pub struct NonePdf {
}

/// One strategy of any kind.
pub enum SinglePdf<'a> {
    Cosine(CosinePdf),
    Shape(HittablePdf<'a>),
    NoneP(NonePdf),
}

/// An unweighted 50/50 mixture of two strategies.
pub struct MixturePdf<'a> {
    pub p0: SinglePdf<'a>,
    pub p1: SinglePdf<'a>,
}

/// The cosine density: `max(0, cos θ) / π` against the basis normal.
pub open spec fn cosine_pdf_value_s(c: CosinePdf, direction: Vec3) -> int {
    let cosine = v3_dot_s(v3_unit_s(direction), c.uvw.w);
    if cosine <= 0 {
        0
    } else {
        fx_div_s(cosine, FX_PI as int)
    }
}

/// The density of one strategy at a direction.
pub open spec fn single_pdf_value_s(p: SinglePdf, direction: Vec3) -> int {
    match p {
        SinglePdf::Cosine(c) => cosine_pdf_value_s(c, direction),
        SinglePdf::Shape(h) => object_pdf_s(*h.ptr, h.o, direction),
        SinglePdf::NoneP(_) => 0,
    }
}

/// A drawn cosine-strategy direction: the polar hemisphere construction
/// applied to two unit draws, carried into the basis.
pub open spec fn cosine_sample_ok_s(c: CosinePdf, res: Vec3) -> bool {
    exists|r1: i64, r2: i64| 0 <= r1 < FX_ONE && 0 <= r2 < FX_ONE
        && res == crate::onb::onb_local_s(c.uvw,
            #[trigger] cosine_direction_s(r1 as int, r2 as int))
}

/// What a draw of one strategy can be.
pub open spec fn pdf_sample_ok_s(p: SinglePdf, res: Vec3) -> bool {
    match p {
        SinglePdf::Cosine(c) => cosine_sample_ok_s(c, res),
        SinglePdf::Shape(h) => shape_sample_ok_s(*h.ptr, h.o, res),
        SinglePdf::NoneP(_) => res == (Vec3 { x: 0i64, y: 0i64, z: 0i64 }),
    }
}

/// The mixture density: the unweighted average of the two children.
pub open spec fn mixture_pdf_value_s(m: MixturePdf, direction: Vec3) -> int {
    sat_s(
        crate::fx::fx_mul_s(32768, single_pdf_value_s(m.p0, direction))
            + crate::fx::fx_mul_s(32768, single_pdf_value_s(m.p1, direction)),
    )
}

impl CosinePdf {
    /// A cosine strategy around the normal `w`.
    pub fn new(w: &Vec3) -> (r: CosinePdf)
        ensures
            r.uvw == onb_from_w_s(*w),
    {
        CosinePdf { uvw: Onb::build_from_w(w) }
    }

    /// The density of this strategy at a direction.
    pub fn value(&self, direction: &Vec3) -> (r: i64)
        ensures
            r == cosine_pdf_value_s(*self, *direction),
            r >= 0,
            fx_ok(r as int),
    {
        let cosine = Vec3::dot(direction.unit(), self.uvw.w);
        if cosine <= 0 {
            0
        } else {
            proof {
                crate::fx::lemma_fx_div_nonneg(cosine as int, FX_PI as int);
            }
            fx_div(cosine, FX_PI)
        }
    }

    /// Draw a cosine-weighted direction: a hemisphere sample carried into
    /// the basis.
    pub fn generate(&self) -> (r: Vec3)
        ensures
            v3_ok(r),
            cosine_sample_ok_s(*self, r),
    {
        let d = random_cosine_direction();
        let r = self.uvw.local1(&d);
        proof {
            let (r1, r2) = choose|r1: i64, r2: i64| 0 <= r1 < FX_ONE && 0 <= r2 < FX_ONE
                && d == #[trigger] cosine_direction_s(r1 as int, r2 as int);
            assert(r == crate::onb::onb_local_s(self.uvw,
                cosine_direction_s(r1 as int, r2 as int)));
        }
        r
    }
}

impl<'a> HittablePdf<'a> {
    /// Sampling toward the shape from the origin.
    pub fn new(p: &'a Object, origin: Vec3) -> (r: HittablePdf<'a>)
        ensures
            r.o == origin,
            r.ptr == p,
    {
        HittablePdf { o: origin, ptr: p }
    }

    /// The density of the shape's sampling at a direction.
    pub fn value(&self, direction: &Vec3) -> (r: i64)
        ensures
            r == object_pdf_s(*self.ptr, self.o, *direction),
            fx_ok(r as int),
    {
        self.ptr.pdf_value(&self.o, direction)
    }

    /// Draw a direction toward the shape.
    pub fn generate(&self) -> (r: Vec3)
        ensures
            v3_ok(r),
            shape_sample_ok_s(*self.ptr, self.o, r),
    {
        self.ptr.random(self.o)
    }
}

impl NonePdf {
    /// The null strategy.
    pub fn new() -> (r: NonePdf) {
        NonePdf {  }
    }

    /// Zero everywhere.
    pub fn value(&self, _direction: &Vec3) -> (r: i64)
        ensures
            r == 0,
    {
        0
    }

    /// The zero vector.
    pub fn generate(&self) -> (r: Vec3)
        ensures
            r == (Vec3 { x: 0i64, y: 0i64, z: 0i64 }),
    {
        Vec3::zero()
    }
}

impl<'a> SinglePdf<'a> {
    /// The density of this strategy at a direction.
    pub fn value(&self, direction: &Vec3) -> (r: i64)
        ensures
            r == single_pdf_value_s(*self, *direction),
            fx_ok(r as int),
    {
        match self {
            SinglePdf::Cosine(c) => c.value(direction),
            SinglePdf::Shape(h) => h.value(direction),
            SinglePdf::NoneP(n) => n.value(direction),
        }
    }

    /// Draw a direction from this strategy.
    pub fn generate(&self) -> (r: Vec3)
        ensures
            v3_ok(r),
            pdf_sample_ok_s(*self, r),
    {
        match self {
            SinglePdf::Cosine(c) => c.generate(),
            SinglePdf::Shape(h) => h.generate(),
            SinglePdf::NoneP(n) => n.generate(),
        }
    }
}

impl<'a> MixturePdf<'a> {
    /// The 50/50 mixture of the two strategies.
    pub fn new(p0: SinglePdf<'a>, p1: SinglePdf<'a>) -> (r: MixturePdf<'a>)
        ensures
            r.p0 == p0,
            r.p1 == p1,
    {
        MixturePdf { p0, p1 }
    }

    /// The density at a direction: always the unweighted average of the two
    /// children's densities, as multiple-importance sampling requires.
    pub fn value(&self, direction: &Vec3) -> (r: i64)
        ensures
            r == mixture_pdf_value_s(*self, *direction),
            fx_ok(r as int),
    {
        fx_add(
            fx_mul(32768, self.p0.value(direction)),
            fx_mul(32768, self.p1.value(direction)),
        )
    }

    /// Draw from one child, chosen by an unbiased coin: the result is a
    /// draw of one of the two strategies.
    pub fn generate(&self) -> (r: Vec3)
        ensures
            v3_ok(r),
            pdf_sample_ok_s(self.p0, r) || pdf_sample_ok_s(self.p1, r),
    {
        if random_unit() < 32768 {
            self.p0.generate()
        } else {
            self.p1.generate()
        }
    }
}

} // verus!
