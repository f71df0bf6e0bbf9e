//! The recursive Monte-Carlo path-tracing estimator.

use vstd::prelude::*;
use crate::fx::{FX_INF, FX_EPS};
use crate::vec3::{Vec3, v3_nonneg_s, v3_ge_s, v3_mul_comp_s, v3_scale_s, v3_div_s, v3_add_s,
    lemma_v3_mul_comp_nonneg, lemma_v3_scale_nonneg, lemma_v3_div_nonneg, lemma_v3_add_nonneg};
use crate::ray::Ray;
use crate::object::{Object, object_hit_s, mats_below_s, is_deterministic_s};
use crate::materia::{Material, material_ok_s, material_nonneg_s, emitted_s};
use crate::pdf::{CosinePdf, HittablePdf, SinglePdf, MixturePdf};

verus! {

/// Every material in the table is internally usable.
pub open spec fn mats_ok_seq_s(ms: Seq<Material>) -> bool {
    forall|i: int| 0 <= i < ms.len() ==> material_ok_s(#[trigger] ms[i])
}

/// Every material in the table emits and attenuates nonnegatively.
pub open spec fn mats_nonneg_seq_s(ms: Seq<Material>) -> bool {
    forall|i: int| 0 <= i < ms.len() ==> material_nonneg_s(#[trigger] ms[i])
}

/// The radiance estimate along a ray.
///
/// The estimator is depth-limited; a miss yields the background; an
/// absorbing surface yields its emission alone; a specular bounce recurses
/// along the concrete ray without density weighting; a diffuse bounce draws
/// its direction from the even mixture of the light-directed strategy and
/// the surface's own cosine strategy, and weights the recursion by the
/// surface density over the mixture density, a vanishing mixture density
/// contributing nothing.
///
/// For a deterministic scene: a miss returns exactly the background; a hit
/// on a light (the one material that never scatters) returns exactly its
/// emission, whatever the depth or the random draws; and every hit returns
/// at least the emission at the hit point, componentwise. For any scene
/// whose materials are nonnegative and any nonnegative background, the
/// estimate is componentwise nonnegative.
pub fn color(r: &Ray, background: &Vec3, world: &Object, lights: &Object, depth: i32,
    mats: &Vec<Material>) -> (res: Vec3)
    requires
        mats_below_s(*world, mats@.len() as int),
        mats_ok_seq_s(mats@),
    ensures
        mats_nonneg_seq_s(mats@) && v3_nonneg_s(*background) ==> v3_nonneg_s(res),
        depth <= 0 ==> res == (Vec3 { x: 0i64, y: 0i64, z: 0i64 }),
        (depth > 0 && is_deterministic_s(*world)
            && object_hit_s(*world, *r, FX_EPS as int, FX_INF as int) is None)
            ==> res == *background,
        (depth > 0 && is_deterministic_s(*world))
            ==> (match object_hit_s(*world, *r, FX_EPS as int, FX_INF as int) {
            Some(h) => (mats@[h.mat as int] matches Material::DiffuseLight(_))
                ==> res == emitted_s(mats@[h.mat as int], h.u as int, h.v as int, h.p),
            None => true,
        }),
        (depth > 0 && is_deterministic_s(*world) && mats_nonneg_seq_s(mats@)
            && v3_nonneg_s(*background))
            ==> (match object_hit_s(*world, *r, FX_EPS as int, FX_INF as int) {
            Some(h) => v3_ge_s(res, emitted_s(mats@[h.mat as int], h.u as int, h.v as int, h.p)),
            None => true,
        }),
        (depth > 0 && is_deterministic_s(*world))
            ==> (match object_hit_s(*world, *r, FX_EPS as int, FX_INF as int) {
            Some(h) => {
                &&& (mats@[h.mat as int] matches Material::Metal(mt)
                    ==> exists|t: Vec3| res == #[trigger] v3_mul_comp_s(t, mt.albedo))
                &&& (mats@[h.mat as int] matches Material::Dielectric(_)
                    ==> exists|t: Vec3| res == #[trigger] v3_mul_comp_s(
                        t, Vec3 { x: crate::fx::FX_ONE, y: crate::fx::FX_ONE,
                            z: crate::fx::FX_ONE }))
            },
            None => true,
        }),
    decreases depth,
{
    if depth <= 0 {
        return Vec3::zero();
    }
    match world.hit(r, FX_EPS, FX_INF) {
        None => *background,
        Some(rec) => {
            proof {
                if is_deterministic_s(*world) {
                    assert(object_hit_s(*world, *r, FX_EPS as int, FX_INF as int) == Some(rec));
                }
            }
            let m = &mats[rec.mat];
            let emitted = m.emitted(r, &rec, rec.u, rec.v, &rec.p);
            match m.scatter(r, &rec) {
                None => emitted,
                Some(srec) => {
                    proof {
                        assert(!(mats@[rec.mat as int] matches Material::DiffuseLight(_)));
                        assert(emitted == (Vec3 { x: 0i64, y: 0i64, z: 0i64 }));
                    }
                    if srec.is_specular {
                        let t = color(&srec.specular_ray, background, world, lights,
                            depth - 1, mats);
                        let res = t.mul_comp(&srec.attenuation);
                        proof {
                            if mats_nonneg_seq_s(mats@) && v3_nonneg_s(*background) {
                                lemma_v3_mul_comp_nonneg(t, srec.attenuation);
                            }
                            assert(res == v3_mul_comp_s(t, srec.attenuation));
                        }
                        res
                    } else {
                        let light_pdf = SinglePdf::Shape(HittablePdf::new(lights, rec.p));
                        let surface_pdf = SinglePdf::Cosine(CosinePdf::new(&srec.pdf_normal));
                        let mixed = MixturePdf::new(light_pdf, surface_pdf);
                        let dir = mixed.generate();
                        let scattered = Ray::new(rec.p, dir, r.time);
                        let pdf_value = mixed.value(&scattered.dir);
                        if pdf_value <= 0 {
                            return emitted;
                        }
                        let spdf = m.scattering_pdf(r, &rec, &scattered);
                        let t = color(&scattered, background, world, lights, depth - 1, mats);
                        let weighted = t.mul_comp(&srec.attenuation).scale(spdf)
                            .divide(pdf_value);
                        let res = emitted.add(&weighted);
                        proof {
                            if mats_nonneg_seq_s(mats@) && v3_nonneg_s(*background) {
                                lemma_v3_mul_comp_nonneg(t, srec.attenuation);
                                lemma_v3_scale_nonneg(v3_mul_comp_s(t, srec.attenuation),
                                    spdf as int);
                                lemma_v3_div_nonneg(
                                    v3_scale_s(v3_mul_comp_s(t, srec.attenuation), spdf as int),
                                    pdf_value as int);
                                lemma_v3_add_nonneg(emitted, weighted);
                            }
                        }
                        res
                    }
                },
            }
        },
    }
}

/// Check at run time that every material in the table is usable.
pub fn mats_check(mats: &Vec<Material>) -> (r: bool)
    ensures
        r == mats_ok_seq_s(mats@),
{
    let mut i: usize = 0;
    while i < mats.len()
        invariant
            0 <= i <= mats@.len(),
            forall|j: int| 0 <= j < i ==> material_ok_s(#[trigger] mats@[j]),
        decreases mats@.len() - i,
    {
        if !mats[i].check_ok() {
            return false;
        }
        i = i + 1;
    }
    true
}

} // verus!
