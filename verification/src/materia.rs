//! Materials: how a surface emits and scatters light.

use vstd::prelude::*;
use crate::fx::{FX_ONE, FX_TWO_PI, FX_PI};
use crate::fx::{fx_add, fx_sub, fx_mul, fx_div, fx_sqrt, fx_sin, fx_cos, fmin};
use crate::fx::{sat_s, fx_mul_s, fx_div_s, fx_sqrt_s, fx_ok, min_i};
use crate::vec3::{Vec3, v3_dot_s, v3_unit_s, v3_neg_s, v3_add_s, v3_scale_s, v3_len_sq_s,
    v3_nonneg_s, v3_ok, reflect, reflect_s, refract, refract_s, random_in_unit_sphere};
use crate::ray::Ray;
use crate::hittable::HitRecord;
use crate::texture::{Texture, SolidColor, texture_ok_s, texture_nonneg_s, texture_value_s};
use crate::rng::random_unit;

verus! {

/// The cosine-weighted polar construction applied to two unit draws:
/// `z = sqrt(1 - r2)`, and `(x, y)` on the circle of radius `sqrt(r2)` at
/// angle `2 pi r1`.
pub open spec fn cosine_direction_s(r1: int, r2: int) -> Vec3 {
    let z = crate::fx::fx_sqrt_s(sat_s((FX_ONE as int) - r2));
    let phi = fx_mul_s(crate::fx::FX_TWO_PI as int, r1);
    let sq = crate::fx::fx_sqrt_s(r2);
    Vec3 {
        x: fx_mul_s(crate::fx::fx_cos_s(phi), sq) as i64,
        y: fx_mul_s(crate::fx::fx_sin_s(phi), sq) as i64,
        z: z as i64,
    }
}

/// A cosine-weighted direction around the z axis, by the polar construction.
pub fn random_cosine_direction() -> (r: Vec3)
    ensures
        v3_ok(r),
        r.z >= 0,
        exists|r1: i64, r2: i64| 0 <= r1 < FX_ONE && 0 <= r2 < FX_ONE
            && r == #[trigger] cosine_direction_s(r1 as int, r2 as int),
{
    let r1 = random_unit();
    let r2 = random_unit();
    let z = fx_sqrt(fx_sub(FX_ONE, r2));
    let phi = fx_mul(FX_TWO_PI, r1);
    let sq = fx_sqrt(r2);
    let x = fx_mul(fx_cos(phi), sq);
    let y = fx_mul(fx_sin(phi), sq);
    let r = Vec3::new(x, y, z);
    proof {
        assert(r == cosine_direction_s(r1 as int, r2 as int));
    }
    r
}

/// A diffuse surface carrying an albedo texture.
pub struct Lambertian {
    pub albedo: Texture,
}

/// A reflective surface, optionally fuzzed.
pub struct Metal {
    pub albedo: Vec3,
    pub fuzz: i64,
}

/// Clear glass of a refractive index; absorbs nothing.
pub struct Dielectric {
    pub ref_idx: i64,
}

/// A one-color emitter that never scatters.
pub struct DiffuseLight {
    pub emit: Texture,
}

/// The phase material of a participating medium: scatters uniformly into
/// the full sphere of directions.
///
/// Its bounce is handed to the integrator flagged specular — a deliberate
/// divergence from the reading under which an isotropic scatter is a
/// density-less diffuse bounce. Flagged diffuse, the integrator would weight
/// every medium sample by the surface's own scattering density, which is
/// zero here, and the medium would carry no light at all. Flagged specular,
/// the drawn direction already follows the uniform phase function, whose
/// density cancels against itself, so the recursion is weighted by the
/// albedo alone; the media in rendered scenes actually scatter.
pub struct Isotropic {
    pub albedo: Texture,
}

/// Any material.
pub enum Material {
    Lambertian(Lambertian),
    Metal(Metal),
    Dielectric(Dielectric),
    DiffuseLight(DiffuseLight),
    Isotropic(Isotropic),
}

/// What the surface hands the integrator for one bounce: either a concrete
/// specular ray, or an attenuation with a cosine sampling strategy.
pub struct ScatterRecord {
    pub specular_ray: Ray,
    pub is_specular: bool,
    pub attenuation: Vec3,
    pub pdf_normal: Vec3,
}

/// The material's internal invariant: its textures are usable.
pub open spec fn material_ok_s(m: Material) -> bool {
    match m {
        Material::Lambertian(l) => texture_ok_s(l.albedo),
        Material::DiffuseLight(d) => texture_ok_s(d.emit),
        Material::Isotropic(i) => texture_ok_s(i.albedo),
        _ => true,
    }
}

/// The material neither emits nor attenuates negatively.
pub open spec fn material_nonneg_s(m: Material) -> bool {
    match m {
        Material::Lambertian(l) => texture_nonneg_s(l.albedo),
        Material::Metal(mt) => v3_nonneg_s(mt.albedo) && crate::vec3::v3_ok(mt.albedo),
        Material::Dielectric(_) => true,
        Material::DiffuseLight(d) => texture_nonneg_s(d.emit),
        Material::Isotropic(i) => texture_nonneg_s(i.albedo),
    }
}

/// Emitted radiance: the emission texture for a light, black for the rest.
pub open spec fn emitted_s(m: Material, u: int, v: int, p: Vec3) -> Vec3 {
    match m {
        Material::DiffuseLight(d) => texture_value_s(d.emit, u, v, p),
        _ => Vec3 { x: 0i64, y: 0i64, z: 0i64 },
    }
}

/// The surface's own scattering density at an outgoing ray: the clipped
/// cosine over pi for a diffuse surface, zero for the rest.
pub open spec fn scattering_pdf_s(m: Material, rec: HitRecord, scattered: Ray) -> int {
    match m {
        Material::Lambertian(_) => {
            let cosine = v3_dot_s(rec.normal, v3_unit_s(scattered.dir));
            if cosine < 0 {
                0
            } else {
                fx_div_s(cosine, FX_PI as int)
            }
        },
        _ => 0,
    }
}

impl Lambertian {
    /// A diffuse surface of one color.
    pub fn new(a: Vec3) -> (r: Lambertian)
        ensures
            r.albedo == Texture::Solid(SolidColor { color_value: a }),
    {
        Lambertian { albedo: Texture::Solid(SolidColor::new(a)) }
    }

    /// A diffuse surface over a texture.
    pub fn new1(a: Texture) -> (r: Lambertian)
        ensures
            r.albedo == a,
    {
        Lambertian { albedo: a }
    }
}

impl Metal {
    /// A reflective surface; fuzz is capped at one.
    pub fn new(a: Vec3, t: i64) -> (r: Metal)
        ensures
            r.albedo == a,
            r.fuzz == if t >= FX_ONE { FX_ONE as int } else { t as int },
    {
        let fuzz = if t >= FX_ONE { FX_ONE } else { t };
        Metal { albedo: a, fuzz }
    }
}

impl Dielectric {
    /// Glass of the given refractive index.
    pub fn new(ri: i64) -> (r: Dielectric)
        ensures
            r.ref_idx == ri,
    {
        Dielectric { ref_idx: ri }
    }
}

impl DiffuseLight {
    /// A light emitting one color.
    pub fn new1(c: Vec3) -> (r: DiffuseLight)
        ensures
            r.emit == Texture::Solid(SolidColor { color_value: c }),
    {
        DiffuseLight { emit: Texture::Solid(SolidColor::new(c)) }
    }
}

impl Isotropic {
    /// A uniform phase function of one color.
    pub fn new(c: Vec3) -> (r: Isotropic)
        ensures
            r.albedo == Texture::Solid(SolidColor { color_value: c }),
    {
        Isotropic { albedo: Texture::Solid(SolidColor::new(c)) }
    }
}

/// Schlick's reflectance approximation.
pub open spec fn schlick_s(cosine: int, ref_idx: int) -> int {
    let r0 = fx_div_s(sat_s((FX_ONE as int) - ref_idx), sat_s((FX_ONE as int) + ref_idx));
    let r0sq = fx_mul_s(r0, r0);
    let omc = sat_s((FX_ONE as int) - cosine);
    let p5 = fx_mul_s(fx_mul_s(fx_mul_s(fx_mul_s(omc, omc), omc), omc), omc);
    sat_s(r0sq + fx_mul_s(sat_s((FX_ONE as int) - r0sq), p5))
}

/// Schlick's reflectance approximation.
pub fn schlick(cosine: i64, ref_idx: i64) -> (r: i64)
    ensures
        r == schlick_s(cosine as int, ref_idx as int),
{
    let r0 = fx_div(fx_sub(FX_ONE, ref_idx), fx_add(FX_ONE, ref_idx));
    let r0sq = fx_mul(r0, r0);
    let omc = fx_sub(FX_ONE, cosine);
    let p5 = fx_mul(fx_mul(fx_mul(fx_mul(omc, omc), omc), omc), omc);
    fx_add(r0sq, fx_mul(fx_sub(FX_ONE, r0sq), p5))
}

impl Material {
    /// Emitted radiance at a hit; unconditional for a light.
    pub fn emitted(&self, _r_in: &Ray, _rec: &HitRecord, u: i64, v: i64, p: &Vec3) -> (res: Vec3)
        requires
            material_ok_s(*self),
        ensures
            res == emitted_s(*self, u as int, v as int, *p),
            material_nonneg_s(*self) ==> v3_nonneg_s(res) && crate::vec3::v3_ok(res),
    {
        match self {
            Material::DiffuseLight(d) => d.emit.value(u, v, p),
            _ => Vec3::zero(),
        }
    }

    /// The surface's own density of having scattered into `scattered`.
    pub fn scattering_pdf(&self, _r_in: &Ray, rec: &HitRecord, scattered: &Ray) -> (res: i64)
        ensures
            res == scattering_pdf_s(*self, *rec, *scattered),
            res >= 0,
            fx_ok(res as int),
    {
        match self {
            Material::Lambertian(_) => {
                let cosine = Vec3::dot(rec.normal, scattered.dir.unit());
                if cosine < 0 {
                    0
                } else {
                    proof {
                        crate::fx::lemma_fx_div_nonneg(cosine as int, FX_PI as int);
                    }
                    fx_div(cosine, FX_PI)
                }
            },
            _ => 0,
        }
    }

    /// How the surface scatters the incoming ray, if it does.
    ///
    /// A diffuse surface supplies an attenuation and the normal its cosine
    /// strategy samples around; a specular surface supplies the concrete
    /// bounced ray (reflection, refraction or an isotropic redirection,
    /// the latter two drawn at random); a light absorbs. The isotropic
    /// phase function is deliberately flagged specular, not diffuse — see
    /// the note on [`Isotropic`] — so the contract pins `is_specular` to
    /// true there.
    pub fn scatter(&self, r_in: &Ray, rec: &HitRecord) -> (res: Option<ScatterRecord>)
        requires
            material_ok_s(*self),
        ensures
            match *self {
                Material::Lambertian(l) => res matches Some(s)
                    && !s.is_specular
                    && s.attenuation == texture_value_s(
                        l.albedo, rec.u as int, rec.v as int, rec.p)
                    && s.pdf_normal == rec.normal,
                Material::Metal(mt) => res matches Some(s)
                    && s.is_specular
                    && s.attenuation == mt.albedo
                    && s.specular_ray.orig == rec.p
                    && s.specular_ray.time == r_in.time
                    && (exists|rv: Vec3| v3_len_sq_s(rv) < FX_ONE && s.specular_ray.dir
                        == v3_add_s(reflect_s(v3_unit_s(r_in.dir), rec.normal),
                            #[trigger] v3_scale_s(rv, mt.fuzz as int))),
                Material::Dielectric(d) => res matches Some(s)
                    && s.is_specular
                    && s.attenuation == (Vec3 { x: FX_ONE, y: FX_ONE, z: FX_ONE })
                    && s.specular_ray.orig == rec.p
                    && s.specular_ray.time == r_in.time
                    && {
                        let ratio = if rec.front_face {
                            fx_div_s(FX_ONE as int, d.ref_idx as int)
                        } else {
                            d.ref_idx as int
                        };
                        let unit_dir = v3_unit_s(r_in.dir);
                        let cos_theta = min_i(v3_dot_s(v3_neg_s(unit_dir), rec.normal),
                            FX_ONE as int);
                        let sin_theta = fx_sqrt_s(sat_s(
                            (FX_ONE as int) - fx_mul_s(cos_theta, cos_theta)));
                        &&& (s.specular_ray.dir == reflect_s(unit_dir, rec.normal)
                            || s.specular_ray.dir == refract_s(unit_dir, rec.normal, ratio))
                        &&& (fx_mul_s(ratio, sin_theta) > FX_ONE
                            ==> s.specular_ray.dir == reflect_s(unit_dir, rec.normal))
                    },
                Material::DiffuseLight(_) => res is None,
                Material::Isotropic(i) => res matches Some(s)
                    && s.is_specular
                    && s.attenuation == texture_value_s(
                        i.albedo, rec.u as int, rec.v as int, rec.p)
                    && s.specular_ray.orig == rec.p
                    && s.specular_ray.time == r_in.time
                    && v3_len_sq_s(s.specular_ray.dir) < FX_ONE,
            },
            material_nonneg_s(*self) ==> (res matches Some(s) ==> v3_nonneg_s(s.attenuation)
                && crate::vec3::v3_ok(s.attenuation)),
    {
        match self {
            Material::Lambertian(l) => {
                Some(ScatterRecord {
                    specular_ray: Ray::zero(),
                    is_specular: false,
                    attenuation: l.albedo.value(rec.u, rec.v, &rec.p),
                    pdf_normal: rec.normal,
                })
            },
            Material::Metal(mt) => {
                let reflected = reflect(r_in.dir.unit(), rec.normal);
                let rv = random_in_unit_sphere();
                let dir = reflected.add(&rv.scale(mt.fuzz));
                Some(ScatterRecord {
                    specular_ray: Ray::new(rec.p, dir, r_in.time),
                    is_specular: true,
                    attenuation: mt.albedo,
                    pdf_normal: Vec3::zero(),
                })
            },
            Material::Dielectric(d) => {
                let ratio = if rec.front_face {
                    fx_div(FX_ONE, d.ref_idx)
                } else {
                    d.ref_idx
                };
                let unit_direction = r_in.dir.unit();
                let c1 = Vec3::dot(unit_direction.neg(), rec.normal);
                let cos_theta = fmin(c1, FX_ONE);
                let sin_theta = fx_sqrt(fx_sub(FX_ONE, fx_mul(cos_theta, cos_theta)));
                let dir = if fx_mul(ratio, sin_theta) > FX_ONE {
                    reflect(unit_direction, rec.normal)
                } else {
                    let reflect_prob = schlick(cos_theta, ratio);
                    if random_unit() < reflect_prob {
                        reflect(unit_direction, rec.normal)
                    } else {
                        refract(unit_direction, rec.normal, ratio)
                    }
                };
                Some(ScatterRecord {
                    specular_ray: Ray::new(rec.p, dir, r_in.time),
                    is_specular: true,
                    attenuation: Vec3::ones(),
                    pdf_normal: Vec3::zero(),
                })
            },
            Material::DiffuseLight(_) => None,
            Material::Isotropic(i) => {
                Some(ScatterRecord {
                    specular_ray: Ray::new(rec.p, random_in_unit_sphere(), r_in.time),
                    is_specular: true,
                    attenuation: i.albedo.value(rec.u, rec.v, &rec.p),
                    pdf_normal: Vec3::zero(),
                })
            },
        }
    }
}

impl Material {
    /// Check the internal invariant at run time.
    pub fn check_ok(&self) -> (r: bool)
        ensures
            r == material_ok_s(*self),
    {
        match self {
            Material::Lambertian(l) => l.albedo.check_ok(),
            Material::DiffuseLight(d) => d.emit.check_ok(),
            Material::Isotropic(i) => i.albedo.check_ok(),
            _ => true,
        }
    }
}

} // verus!
