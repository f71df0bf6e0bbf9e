//! Textures: pure functions from surface coordinates to a color.

use vstd::prelude::*;
use crate::fx::{FX_ONE, clamp, fx_add, fx_sub, fx_mul, fx_sin, fmax};
use crate::fx::{sat_s, fx_mul_s, fx_sin_s, max_i, min_i};
use crate::vec3::{Vec3, v3_scale_s, v3_nonneg_s, v3_ok};
use crate::perlin::{Perlin, perlin_ok_s, turb_s};

verus! {

/// Ten in fixed point (the checker and noise frequency constant).
pub const FX_TEN: i64 = 655360;

/// A constant color.
pub struct SolidColor {
    pub color_value: Vec3,
}

/// A constant color under another name, used by the checker tiles.
pub struct BaseColor {
    pub color: Vec3,
}

/// Alternating tiles decided by the sign of a product of sines.
pub struct CheckerTexture {
    pub odd: BaseColor,
    pub even: BaseColor,
}

/// Perlin turbulence shaped into marble-like bands.
pub struct NoiseTexture {
    pub noise: Perlin,
    pub scale: i64,
}

/// A decoded raster, sampled by nearest pixel.
pub struct ImageTexture {
    pub width: usize,
    pub height: usize,
    pub data: Vec<u8>,
}

/// Any texture.
pub enum Texture {
    Solid(SolidColor),
    Base(BaseColor),
    Checker(CheckerTexture),
    Noise(NoiseTexture),
    Image(ImageTexture),
}

/// The texture's internal invariant: a full noise lattice, a raster whose
/// buffer really holds `width × height` RGB triples.
pub open spec fn texture_ok_s(t: Texture) -> bool {
    match t {
        Texture::Noise(nt) => perlin_ok_s(nt.noise),
        Texture::Image(it) => it.width > 0 && it.height > 0
            && it.data@.len() == it.width * it.height * 3
            && it.width < 0x8000 && it.height < 0x8000,
        _ => true,
    }
}

/// The texture yields physically sensible colors: its stored colors are
/// nonnegative and representable (noise bands and raster bytes are so by
/// shape).
pub open spec fn texture_nonneg_s(t: Texture) -> bool {
    match t {
        Texture::Solid(sc) => v3_nonneg_s(sc.color_value) && v3_ok(sc.color_value),
        Texture::Base(bc) => v3_nonneg_s(bc.color) && v3_ok(bc.color),
        Texture::Checker(ck) => v3_nonneg_s(ck.odd.color) && v3_ok(ck.odd.color)
            && v3_nonneg_s(ck.even.color) && v3_ok(ck.even.color),
        Texture::Noise(_) => true,
        Texture::Image(_) => true,
    }
}

/// A raster byte widened into a fixed-point channel in `[0, 1]`.
pub open spec fn byte_to_fx_s(b: int) -> int {
    (b * (FX_ONE as int)) / 255
}

/// The nearest-pixel raster lookup: `u` clamped, `v` flipped then clamped,
/// both scaled to pixel indices clamped into the raster.
pub open spec fn image_value_s(it: ImageTexture, u: int, v: int) -> Vec3 {
    let uc = max_i(0, min_i(u, FX_ONE as int));
    let vc = sat_s((FX_ONE as int) - max_i(0, min_i(v, FX_ONE as int)));
    let i0 = (uc * (it.width as int)) / (FX_ONE as int);
    let j0 = (vc * (it.height as int)) / (FX_ONE as int);
    let i = min_i(i0, it.width as int - 1);
    let j = min_i(j0, it.height as int - 1);
    let base = 3 * (j * (it.width as int) + i);
    Vec3 {
        x: byte_to_fx_s(it.data@[base] as int) as i64,
        y: byte_to_fx_s(it.data@[base + 1] as int) as i64,
        z: byte_to_fx_s(it.data@[base + 2] as int) as i64,
    }
}

/// The checker selector: the product of the three axis sines.
pub open spec fn checker_sines_s(p: Vec3) -> int {
    fx_mul_s(
        fx_mul_s(fx_sin_s(fx_mul_s(FX_TEN as int, p.x as int)),
            fx_sin_s(fx_mul_s(FX_TEN as int, p.y as int))),
        fx_sin_s(fx_mul_s(FX_TEN as int, p.z as int)),
    )
}

/// The marble band value: half of one plus the sine of scaled turbulence
/// plus the scaled height, floored at zero.
pub open spec fn noise_value_s(nt: NoiseTexture, p: Vec3) -> Vec3 {
    let band = fx_sin_s(sat_s(
        fx_mul_s(FX_TEN as int, turb_s(nt.noise, p, 7)) + fx_mul_s(nt.scale as int, p.z as int)));
    let level = max_i(0, fx_mul_s(32768, sat_s((FX_ONE as int) + band)));
    v3_scale_s(Vec3 { x: FX_ONE, y: FX_ONE, z: FX_ONE }, level)
}

/// The color of the texture at surface coordinates `(u, v)` and point `p`.
pub open spec fn texture_value_s(t: Texture, u: int, v: int, p: Vec3) -> Vec3 {
    match t {
        Texture::Solid(sc) => sc.color_value,
        Texture::Base(bc) => bc.color,
        Texture::Checker(ck) => if checker_sines_s(p) < 0 {
            ck.odd.color
        } else {
            ck.even.color
        },
        Texture::Noise(nt) => noise_value_s(nt, p),
        Texture::Image(it) => image_value_s(it, u, v),
    }
}

impl SolidColor {
    /// A texture of one color.
    pub fn new(c: Vec3) -> (r: SolidColor)
        ensures
            r.color_value == c,
    {
        SolidColor { color_value: c }
    }
}

impl BaseColor {
    /// A constant color from a vector.
    pub fn vectobase(color: Vec3) -> (r: BaseColor)
        ensures
            r.color == color,
    {
        BaseColor { color }
    }
}

impl CheckerTexture {
    /// A checkerboard of the two colors.
    pub fn new(even: Vec3, odd: Vec3) -> (r: CheckerTexture)
        ensures
            r.even.color == even,
            r.odd.color == odd,
    {
        CheckerTexture {
            even: BaseColor::vectobase(even),
            odd: BaseColor::vectobase(odd),
        }
    }
}

impl NoiseTexture {
    /// A marble texture of the given band scale over a fresh lattice.
    pub fn new1(sc: i64) -> (r: NoiseTexture)
        ensures
            r.scale == sc,
            perlin_ok_s(r.noise),
    {
        NoiseTexture { noise: Perlin::new(), scale: sc }
    }
}

impl ImageTexture {
    /// Wrap a decoded raster: `width × height` RGB triples, row-major.
    pub fn new(width: usize, height: usize, data: Vec<u8>) -> (r: ImageTexture)
        ensures
            r.width == width,
            r.height == height,
            r.data == data,
    {
        ImageTexture { width, height, data }
    }
}

impl Texture {
    /// The color at `(u, v, p)`.
    pub fn value(&self, u: i64, v: i64, p: &Vec3) -> (res: Vec3)
        requires
            texture_ok_s(*self),
        ensures
            res == texture_value_s(*self, u as int, v as int, *p),
            texture_nonneg_s(*self) ==> v3_nonneg_s(res) && v3_ok(res),
    {
        match self {
            Texture::Solid(sc) => sc.color_value,
            Texture::Base(bc) => bc.color,
            Texture::Checker(ck) => {
                let sines = fx_mul(
                    fx_mul(fx_sin(fx_mul(FX_TEN, p.x)), fx_sin(fx_mul(FX_TEN, p.y))),
                    fx_sin(fx_mul(FX_TEN, p.z)),
                );
                if sines < 0 {
                    ck.odd.color
                } else {
                    ck.even.color
                }
            },
            Texture::Noise(nt) => {
                let band = fx_sin(fx_add(
                    fx_mul(FX_TEN, nt.noise.turb(*p, 7)),
                    fx_mul(nt.scale, p.z),
                ));
                let level = fmax(0, fx_mul(32768, fx_add(FX_ONE, band)));
                proof {
                    crate::fx::lemma_fx_mul_nonneg(FX_ONE as int, level as int);
                }
                Vec3::ones().scale(level)
            },
            Texture::Image(it) => {
                let uc = clamp(u, 0, FX_ONE);
                let vc = fx_sub(FX_ONE, clamp(v, 0, FX_ONE));
                proof {
                    assert(0 <= (uc as int) * (it.width as int) < 0x100000000)
                        by (nonlinear_arith)
                        requires
                            0 <= (uc as int) <= 65536,
                            0 < (it.width as int) < 0x8000,
                    ;
                    assert(0 <= (vc as int) * (it.height as int) < 0x100000000)
                        by (nonlinear_arith)
                        requires
                            0 <= (vc as int) <= 65536,
                            0 < (it.height as int) < 0x8000,
                    ;
                }
                let i0 = ((uc as u64 * it.width as u64) / (FX_ONE as u64)) as usize;
                let j0 = ((vc as u64 * it.height as u64) / (FX_ONE as u64)) as usize;
                let i = if i0 > it.width - 1 { it.width - 1 } else { i0 };
                let j = if j0 > it.height - 1 { it.height - 1 } else { j0 };
                proof {
                    assert(3 * ((j as int) * (it.width as int) + (i as int)) + 2
                        < it.data@.len()) by (nonlinear_arith)
                        requires
                            0 <= (i as int) < (it.width as int),
                            0 <= (j as int) < (it.height as int),
                            it.data@.len() == (it.width as int) * (it.height as int) * 3,
                    ;
                }
                proof {
                    assert(0 <= (j as int) * (it.width as int) < 0x40000000)
                        by (nonlinear_arith)
                        requires
                            0 <= (j as int) < 0x8000,
                            0 < (it.width as int) < 0x8000,
                    ;
                }
                let base = 3 * (j * it.width + i);
                let b0 = it.data[base];
                let b1 = it.data[base + 1];
                let b2 = it.data[base + 2];
                proof {
                    vstd::arithmetic::div_mod::lemma_div_is_ordered(
                        (b0 as int) * (FX_ONE as int), 255 * (FX_ONE as int), 255);
                    vstd::arithmetic::div_mod::lemma_div_is_ordered(
                        (b1 as int) * (FX_ONE as int), 255 * (FX_ONE as int), 255);
                    vstd::arithmetic::div_mod::lemma_div_is_ordered(
                        (b2 as int) * (FX_ONE as int), 255 * (FX_ONE as int), 255);
                }
                Vec3::new(
                    ((b0 as u64 * FX_ONE as u64) / 255) as i64,
                    ((b1 as u64 * FX_ONE as u64) / 255) as i64,
                    ((b2 as u64 * FX_ONE as u64) / 255) as i64,
                )
            },
        }
    }
}

/// Check the internal invariant at run time (for callers outside the
/// verified world that must establish it before use).
impl Texture {
    pub fn check_ok(&self) -> (r: bool)
        ensures
            r == texture_ok_s(*self),
    {
        match self {
            Texture::Noise(nt) => {
                if nt.noise.ranvec.len() != 256 {
                    return false;
                }
                crate::perlin::perm_check(&nt.noise.perm_x)
                    && crate::perlin::perm_check(&nt.noise.perm_y)
                    && crate::perlin::perm_check(&nt.noise.perm_z)
            },
            Texture::Image(it) => {
                if it.width == 0 || it.height == 0 || it.width >= 0x8000 || it.height >= 0x8000 {
                    return false;
                }
                proof {
                    assert((it.width as int) * (it.height as int) * 3 < 0x100000000)
                        by (nonlinear_arith)
                        requires
                            0 < (it.width as int) < 0x8000,
                            0 < (it.height as int) < 0x8000,
                    ;
                }
                it.data.len() == it.width * it.height * 3
            },
            _ => true,
        }
    }
}

} // verus!
