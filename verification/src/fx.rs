//! Fixed-point scalar arithmetic.
//!
//! A scalar is an `i64` holding the real value scaled by [`FX_ONE`].
//! Every operation saturates at `[-FX_INF, FX_INF]`; the bound acts as the
//! infinity that IEEE division by zero would produce, so the slab test and
//! the other numeric predicates behave sensibly on degenerate input.

use vstd::prelude::*;

verus! {

/// One in fixed-point representation (the global scale factor).
pub const FX_ONE: i64 = 65536;

/// The saturation bound; stands in for infinity.
pub const FX_INF: i64 = 4611686018427387903;

/// A small positive scalar used to pad degenerate extents and to step past
/// the originating surface when a scattered ray is re-cast.
pub const FX_EPS: i64 = 7;

/// A thousandth, the lower ray bound of the rectangle sampling densities.
pub const FX_MILLI: i64 = 66;

/// Two in fixed point.
pub const FX_TWO: i64 = 131072;

/// Magnitude of a mathematical integer.
pub open spec fn abs_i(x: int) -> int {
    if x < 0 { -x } else { x }
}

/// Saturation to the representable range.
pub open spec fn sat_s(x: int) -> int {
    if x > FX_INF as int {
        FX_INF as int
    } else if x < -(FX_INF as int) {
        -(FX_INF as int)
    } else {
        x
    }
}

/// Division truncating toward zero; division by zero yields the signed
/// saturation bound, mirroring the IEEE convention of a signed infinity.
pub open spec fn div_t(a: int, b: int) -> int {
    if b == 0 {
        if a > 0 {
            FX_INF as int
        } else if a < 0 {
            -(FX_INF as int)
        } else {
            0
        }
    } else {
        let q = abs_i(a) / abs_i(b);
        if (a < 0) != (b < 0) {
            -q
        } else {
            q
        }
    }
}

/// A scalar is in the representable range.
pub open spec fn fx_ok(x: int) -> bool {
    -(FX_INF as int) <= x <= FX_INF as int
}

/// Fixed-point product: `a * b / FX_ONE`, truncated, then saturated.
pub open spec fn fx_mul_s(a: int, b: int) -> int {
    sat_s(div_t(a * b, FX_ONE as int))
}

/// Fixed-point quotient: `a * FX_ONE / b`, truncated, then saturated.
pub open spec fn fx_div_s(a: int, b: int) -> int {
    sat_s(div_t(a * (FX_ONE as int), b))
}

/// The smaller of two scalars.
pub fn fmin(a: i64, b: i64) -> (r: i64)
    ensures
        r == if a < b { a as int } else { b as int },
{
    if a < b {
        a
    } else {
        b
    }
}

/// The larger of two scalars.
pub fn fmax(a: i64, b: i64) -> (r: i64)
    ensures
        r == if a > b { a as int } else { b as int },
{
    if a > b {
        a
    } else {
        b
    }
}

/// The smallest of three scalars.
pub fn min3(a: i64, b: i64, c: i64) -> (r: i64)
    ensures
        r == if a < b { if a < c { a as int } else { c as int } }
            else { if b < c { b as int } else { c as int } },
{
    fmin(fmin(a, b), c)
}

/// The largest of three scalars.
pub fn max3(a: i64, b: i64, c: i64) -> (r: i64)
    ensures
        r == if a > b { if a > c { a as int } else { c as int } }
            else { if b > c { b as int } else { c as int } },
{
    fmax(fmax(a, b), c)
}

/// Clamp `x` into `[lo, hi]`.
pub fn clamp(x: i64, lo: i64, hi: i64) -> (r: i64)
    ensures
        r == if x < lo { lo as int } else if x > hi { hi as int } else { x as int },
{
    if x < lo {
        lo
    } else if x > hi {
        hi
    } else {
        x
    }
}

/// Saturate a wide intermediate back to a scalar.
fn sat64(x: i128) -> (r: i64)
    ensures
        r == sat_s(x as int),
        fx_ok(r as int),
{
    if x > FX_INF as i128 {
        FX_INF
    } else if x < -(FX_INF as i128) {
        -FX_INF
    } else {
        x as i64
    }
}

/// Truncating division on wide intermediates, computed on magnitudes.
fn div_trunc(p: i128, q: i128) -> (r: i128)
    requires
        q != 0,
        -0x40000000000000000000000000000000 <= p <= 0x40000000000000000000000000000000,
    ensures
        r == div_t(p as int, q as int),
{
    let pm: u128 = if p < 0 { (-p) as u128 } else { p as u128 };
    let qm: u128 = if q < 0 {
        if q == i128::MIN { 0x80000000000000000000000000000000u128 } else { (-q) as u128 }
    } else {
        q as u128
    };
    let quot: u128 = pm / qm;
    assert(pm as int == abs_i(p as int));
    assert(qm as int == abs_i(q as int));
    assert(quot as int == abs_i(p as int) / abs_i(q as int));
    if (p < 0) != (q < 0) {
        assert(quot <= pm);
        -(quot as i128)
    } else {
        assert(quot <= pm);
        quot as i128
    }
}

/// Saturating sum.
pub fn fx_add(a: i64, b: i64) -> (r: i64)
    ensures
        r == sat_s(a + b),
        fx_ok(r as int),
{
    sat64(a as i128 + b as i128)
}

/// Saturating difference.
pub fn fx_sub(a: i64, b: i64) -> (r: i64)
    ensures
        r == sat_s(a - b),
        fx_ok(r as int),
{
    sat64(a as i128 - b as i128)
}

/// Saturating negation.
pub fn fx_neg(a: i64) -> (r: i64)
    ensures
        r == sat_s(-a),
        fx_ok(r as int),
{
    sat64(-(a as i128))
}

/// Fixed-point multiplication.
pub fn fx_mul(a: i64, b: i64) -> (r: i64)
    ensures
        r == fx_mul_s(a as int, b as int),
        fx_ok(r as int),
{
    proof {
        assert((a as int) * (b as int) <= 0x40000000000000000000000000000000
            && (a as int) * (b as int) >= -0x40000000000000000000000000000000) by (nonlinear_arith)
            requires
                -0x8000000000000000 <= a as int <= 0x7fffffffffffffff,
                -0x8000000000000000 <= b as int <= 0x7fffffffffffffff,
        ;
    }
    let p: i128 = a as i128 * b as i128;
    sat64(div_trunc(p, FX_ONE as i128))
}

/// Fixed-point division; a zero divisor yields the signed saturation bound.
pub fn fx_div(a: i64, b: i64) -> (r: i64)
    ensures
        r == fx_div_s(a as int, b as int),
        fx_ok(r as int),
{
    if b == 0 {
        if a > 0 {
            FX_INF
        } else if a < 0 {
            -FX_INF
        } else {
            0
        }
    } else {
        proof {
            assert((a as int) * (FX_ONE as int) <= 0x40000000000000000000000000000000
                && (a as int) * (FX_ONE as int) >= -0x40000000000000000000000000000000)
                by (nonlinear_arith)
                requires
                    -0x8000000000000000 <= a as int <= 0x7fffffffffffffff,
            ;
        }
        let p: i128 = a as i128 * FX_ONE as i128;
        sat64(div_trunc(p, b as i128))
    }
}

/// Saturating magnitude of a scalar.
pub fn fx_abs(a: i64) -> (r: i64)
    ensures
        r == sat_s(abs_i(a as int)),
        fx_ok(r as int),
{
    if a < 0 {
        fx_neg(a)
    } else {
        sat64(a as i128)
    }
}

/// A count widened into fixed point.
pub fn usize_to_fx(n: usize) -> (r: i64)
    ensures
        r == sat_s((n as int) * (FX_ONE as int)),
        fx_ok(r as int),
{
    proof {
        assert((n as int) * 65536 <= 0x10000000000000000 * 65536) by (nonlinear_arith)
            requires
                0 <= (n as int) && (n as int) <= 0x10000000000000000,
        ;
    }
    sat64((n as i128) * (FX_ONE as i128))
}

/// The smaller of two mathematical integers.
pub open spec fn min_i(a: int, b: int) -> int {
    if a < b { a } else { b }
}

/// The larger of two mathematical integers.
pub open spec fn max_i(a: int, b: int) -> int {
    if a > b { a } else { b }
}

/// Truncating division is exact on multiples.
pub proof fn lemma_div_t_exact(a: int, b: int)
    requires
        b > 0,
    ensures
        div_t(a * b, b) == a,
{
    if a >= 0 {
        assert(abs_i(a * b) == a * b) by (nonlinear_arith)
            requires
                a >= 0,
                b > 0,
        ;
        vstd::arithmetic::div_mod::lemma_div_multiples_vanish(a, b);
        assert((b * a) / b == a);
        assert(a * b == b * a) by (nonlinear_arith);
    } else {
        assert(abs_i(a * b) == (-a) * b) by (nonlinear_arith)
            requires
                a < 0,
                b > 0,
        ;
        vstd::arithmetic::div_mod::lemma_div_multiples_vanish(-a, b);
        assert((b * (-a)) / b == -a);
        assert((-a) * b == b * (-a)) by (nonlinear_arith);
        assert(a * b < 0) by (nonlinear_arith)
            requires
                a < 0,
                b > 0,
        ;
    }
}

/// Multiplying by one is the identity on representable scalars.
pub proof fn lemma_fx_mul_one(a: int)
    requires
        fx_ok(a),
    ensures
        fx_mul_s(a, FX_ONE as int) == a,
{
    lemma_div_t_exact(a, FX_ONE as int);
}

/// Floor of the square root of a nonnegative integer, defined by counting up.
pub open spec fn sqrt_floor(n: int) -> int
    decreases n,
{
    if n <= 0 {
        0
    } else {
        let p = sqrt_floor(n - 1);
        if (p + 1) * (p + 1) <= n {
            p + 1
        } else {
            p
        }
    }
}

/// `sqrt_floor` really is the floor of the square root.
pub proof fn lemma_sqrt_floor(n: int)
    requires
        n >= 0,
    ensures
        sqrt_floor(n) >= 0,
        sqrt_floor(n) * sqrt_floor(n) <= n,
        n < (sqrt_floor(n) + 1) * (sqrt_floor(n) + 1),
    decreases n,
{
    if n == 0 {
        let s = sqrt_floor(0);
        assert(s == 0);
        assert((s + 1) * (s + 1) == 1) by (nonlinear_arith)
            requires
                s == 0,
        ;
    } else {
        lemma_sqrt_floor(n - 1);
        let p = sqrt_floor(n - 1);
        if (p + 1) * (p + 1) <= n {
            assert(sqrt_floor(n) == p + 1);
            assert(n - 1 < (p + 1) * (p + 1));
            assert(n == (p + 1) * (p + 1));
            assert((p + 2) * (p + 2) > (p + 1) * (p + 1)) by (nonlinear_arith)
                requires
                    p >= 0,
            ;
            assert(n < (sqrt_floor(n) + 1) * (sqrt_floor(n) + 1));
        } else {
            assert(sqrt_floor(n) == p);
            assert(n < (sqrt_floor(n) + 1) * (sqrt_floor(n) + 1));
        }
    }
}

/// The floor of the square root is the unique `r` with `r² ≤ n < (r+1)²`.
pub proof fn lemma_sqrt_floor_unique(n: int, r: int)
    requires
        n >= 0,
        r >= 0,
        r * r <= n,
        n < (r + 1) * (r + 1),
    ensures
        r == sqrt_floor(n),
{
    let s = sqrt_floor(n);
    lemma_sqrt_floor(n);
    if r < s {
        assert((r + 1) * (r + 1) <= s * s) by (nonlinear_arith)
            requires
                0 <= r + 1 <= s,
        ;
        assert(false);
    }
    if s < r {
        assert((s + 1) * (s + 1) <= r * r) by (nonlinear_arith)
            requires
                0 <= s + 1 <= r,
        ;
        assert(false);
    }
}

/// Integer square root by bisection.
fn isqrt_u128(n: u128) -> (r: u128)
    ensures
        r * r <= n,
        n < (r + 1) * (r + 1),
        r < 0x10000000000000000,
{
    let mut lo: u128 = 0;
    let mut hi: u128 = 0x10000000000000000;
    assert((0x10000000000000000 as int) * (0x10000000000000000 as int) > n as int);
    while lo + 1 < hi
        invariant
            lo < hi <= 0x10000000000000000,
            lo * lo <= n,
            (hi as int) * (hi as int) > n,
        decreases hi - lo,
    {
        let mid: u128 = lo + (hi - lo) / 2;
        proof {
            assert((mid as int) * (mid as int) < 0x100000000000000000000000000000000)
                by (nonlinear_arith)
                requires
                    0 <= (mid as int) && (mid as int) < 0x10000000000000000,
            ;
        }
        let m2: u128 = mid * mid;
        if m2 <= n {
            lo = mid;
        } else {
            hi = mid;
        }
    }
    lo
}

/// Fixed-point square root: 0 on nonpositive input.
pub open spec fn fx_sqrt_s(a: int) -> int {
    if a <= 0 {
        0
    } else {
        sqrt_floor(a * (FX_ONE as int))
    }
}

/// Fixed-point square root of a scalar; nonpositive input yields zero.
pub fn fx_sqrt(a: i64) -> (r: i64)
    ensures
        r == fx_sqrt_s(a as int),
        0 <= r <= FX_INF,
{
    if a <= 0 {
        0
    } else {
        proof {
            assert((a as int) * 65536 <= 0x80000000000000000000) by (nonlinear_arith)
                requires
                    0 <= (a as int) && (a as int) <= 0x7fffffffffffffff,
            ;
        }
        let n: u128 = (a as u128) * (FX_ONE as u128);
        let s = isqrt_u128(n);
        proof {
            assert((n as int) <= 0x4000000000000000000000) by (nonlinear_arith)
                requires
                    0 <= (a as int) && (a as int) <= 0x7fffffffffffffff,
                    n as int == (a as int) * 65536,
            ;
            assert((s as int) < 0x10000000000000) by (nonlinear_arith)
                requires
                    (s as int) * (s as int) <= n as int,
                    (n as int) <= 0x4000000000000000000000,
                    s as int >= 0,
            ;
            lemma_sqrt_floor_unique(n as int, s as int);
        }
        s as i64
    }
}

/// Three in fixed point.
pub const FX_THREE: i64 = 196608;

/// Four in fixed point.
pub const FX_FOUR: i64 = 262144;

/// Normalization for the logarithm: double a positive value until it reaches
/// `[2^15, 2^16)`, counting the doublings.
pub open spec fn ln_norm_s(m: int) -> (int, int)
    decreases 65536 - m,
{
    if m < 1 {
        (m, 0)
    } else if m >= 32768 {
        (m, 0)
    } else {
        let r = ln_norm_s(2 * m);
        (r.0, r.1 + 1)
    }
}

/// The truncated Mercator series for `-ln(m / 2^16)` with `m` in
/// `[2^15, 2^16)`: four terms in `y = 1 - m / 2^16`.
pub open spec fn neg_ln_frac_s(m: int) -> int {
    let y = sat_s((FX_ONE as int) - m);
    let y2 = fx_mul_s(y, y);
    let y3 = fx_mul_s(y2, y);
    let y4 = fx_mul_s(y3, y);
    sat_s(sat_s(sat_s(y + fx_div_s(y2, FX_TWO as int)) + fx_div_s(y3, FX_THREE as int))
        + fx_div_s(y4, FX_FOUR as int))
}

/// `-ln(k / 2^16)` for `k` in `[0, 2^16)`; zero input yields the saturation
/// bound, the infinity the real logarithm would approach.
pub open spec fn neg_ln_unit_s(k: int) -> int {
    if k <= 0 {
        FX_INF as int
    } else {
        let nm = ln_norm_s(k);
        sat_s(sat_s(nm.1 * (FX_LN2 as int)) + neg_ln_frac_s(nm.0))
    }
}

/// The negated natural logarithm of `k / 2^16` for `k` below one.
pub fn fx_neg_ln_unit(k: i64) -> (r: i64)
    requires
        0 <= k < FX_ONE,
    ensures
        r == neg_ln_unit_s(k as int),
        r >= 0,
{
    if k <= 0 {
        return FX_INF;
    }
    let mut m: i64 = k;
    let mut e: i64 = 0;
    proof {
        vstd::arithmetic::power2::lemma2_to64();
    }
    while m < 32768
        invariant
            1 <= m <= 65535,
            0 <= e <= 16,
            vstd::arithmetic::power2::pow2(e as nat) <= m,
            ln_norm_s(k as int).0 == ln_norm_s(m as int).0,
            ln_norm_s(k as int).1 == ln_norm_s(m as int).1 + e,
        decreases 65536 - m,
    {
        proof {
            vstd::arithmetic::power2::lemma2_to64();
            if e >= 16 {
                assert(vstd::arithmetic::power2::pow2(16) <= m);
                assert(false);
            }
            vstd::arithmetic::power2::lemma_pow2_unfold((e + 1) as nat);
        }
        m = m * 2;
        e = e + 1;
    }
    proof {
        if e > 16 {
            vstd::arithmetic::power2::lemma_pow2_strictly_increases(16, e as nat);
            vstd::arithmetic::power2::lemma2_to64();
            assert(false);
        }
    }
    let y = fx_sub(FX_ONE, m);
    let y2 = fx_mul(y, y);
    let y3 = fx_mul(y2, y);
    let y4 = fx_mul(y3, y);
    proof {
        lemma_fx_mul_nonneg(y as int, y as int);
        lemma_fx_mul_nonneg(y2 as int, y as int);
        lemma_fx_mul_nonneg(y3 as int, y as int);
        lemma_fx_div_nonneg(y2 as int, FX_TWO as int);
        lemma_fx_div_nonneg(y3 as int, FX_THREE as int);
        lemma_fx_div_nonneg(y4 as int, FX_FOUR as int);
    }
    let frac = fx_add(fx_add(fx_add(y, fx_div(y2, FX_TWO)), fx_div(y3, FX_THREE)),
        fx_div(y4, FX_FOUR));
    fx_add(sat64(e as i128 * FX_LN2 as i128), frac)
}

/// Pi in fixed point.
pub const FX_PI: i64 = 205887;

/// One hundred and eighty in fixed point.
pub const FX_180: i64 = 11796480;

/// Two pi in fixed point.
pub const FX_TWO_PI: i64 = 411775;

/// Half pi in fixed point.
pub const FX_PI_2: i64 = 102944;

/// Quarter pi in fixed point.
pub const FX_PI_4: i64 = 51472;

/// Five pi squared in fixed point (the Bhaskara denominator constant).
pub const FX_FIVE_PI_SQ: i64 = 3234072;

/// The linear correction constant of the arctangent approximation.
pub const FX_ATAN_C: i64 = 17891;

/// The natural logarithm of two in fixed point.
pub const FX_LN2: i64 = 45426;

/// Euclidean remainder: the representative of `a` modulo `m` in `[0, m)`.
pub fn mod_pos(a: i64, m: i64) -> (r: i64)
    requires
        m > 0,
    ensures
        r == (a as int) % (m as int),
        0 <= r < m,
{
    if a >= 0 {
        let r = ((a as u64) % (m as u64)) as i64;
        r
    } else {
        let n: i128 = -(a as i128);
        let t = ((n as u128) % (m as u128)) as i64;
        proof {
            vstd::arithmetic::div_mod::lemma_fundamental_div_mod(n as int, m as int);
            let q = (n as int) / (m as int);
            assert(n as int == (m as int) * q + t);
            assert((m as int) * (-q) == -((m as int) * q)) by (nonlinear_arith);
            assert((m as int) * (-q - 1) == -((m as int) * q) - (m as int)) by (nonlinear_arith);
            assert(a as int == (m as int) * (-q) + (-(t as int)));
            if t == 0 {
                vstd::arithmetic::div_mod::lemma_fundamental_div_mod_converse(
                    a as int, m as int, -q, 0);
            } else {
                assert(a as int == (m as int) * (-q - 1) + ((m as int) - (t as int)));
                vstd::arithmetic::div_mod::lemma_fundamental_div_mod_converse(
                    a as int, m as int, -q - 1, (m as int) - (t as int));
            }
        }
        if t == 0 {
            0
        } else {
            m - t
        }
    }
}

/// The Bhaskara sine approximation on `[0, pi]`:
/// `16 t (pi - t) / (5 pi^2 - 4 t (pi - t))`.
pub open spec fn sin_half_s(t: int) -> int {
    let w = fx_mul_s(t, sat_s(FX_PI - t));
    fx_div_s(sat_s(16 * w), sat_s(FX_FIVE_PI_SQ - 4 * w))
}

/// Sine: the argument reduced modulo two pi, then the half-turn
/// approximation with the sign of the half.
pub open spec fn fx_sin_s(t: int) -> int {
    let m = t % (FX_TWO_PI as int);
    if m <= FX_PI {
        sin_half_s(m)
    } else {
        -sin_half_s(m - FX_PI)
    }
}

/// Cosine: sine shifted by half pi.
pub open spec fn fx_cos_s(t: int) -> int {
    fx_sin_s(sat_s(t + FX_PI_2))
}

/// The Bhaskara sine approximation on a half turn.
fn sin_half(t: i64) -> (r: i64)
    requires
        0 <= t <= FX_PI,
    ensures
        r == sin_half_s(t as int),
{
    let w = fx_mul(t, fx_sub(FX_PI, t));
    let num = sat64_pub(16i128 * (w as i128));
    let den = sat64_pub((FX_FIVE_PI_SQ as i128) - 4i128 * (w as i128));
    fx_div(num, den)
}

/// Saturation of a wide value, available to the scalar helpers.
fn sat64_pub(x: i128) -> (r: i64)
    ensures
        r == sat_s(x as int),
        fx_ok(r as int),
{
    if x > FX_INF as i128 {
        FX_INF
    } else if x < -(FX_INF as i128) {
        -FX_INF
    } else {
        x as i64
    }
}

/// Sine of a fixed-point angle in radians.
pub fn fx_sin(t: i64) -> (r: i64)
    ensures
        r == fx_sin_s(t as int),
{
    let m = mod_pos(t, FX_TWO_PI);
    if m <= FX_PI {
        sin_half(m)
    } else {
        let s = sin_half(m - FX_PI);
        proof {
            assert(fx_ok(sin_half_s((m - FX_PI) as int)));
        }
        -s
    }
}

/// Cosine of a fixed-point angle in radians.
pub fn fx_cos(t: i64) -> (r: i64)
    ensures
        r == fx_cos_s(t as int),
{
    fx_sin(fx_add(t, FX_PI_2))
}

/// The arctangent approximation on `[0, 1]`:
/// `t (pi/4 + c (1 - t))` with the standard correction constant.
pub open spec fn atan_unit_s(t: int) -> int {
    fx_mul_s(t, sat_s(FX_PI_4 + fx_mul_s(FX_ATAN_C as int, sat_s(FX_ONE - t))))
}

/// Arctangent: odd, and folded through `atan(x) = pi/2 - atan(1/x)` above one.
pub open spec fn fx_atan_s(t: int) -> int {
    if t < 0 {
        -fx_atan_pos_s(sat_s(-t))
    } else {
        fx_atan_pos_s(t)
    }
}

/// Arctangent of a nonnegative argument.
pub open spec fn fx_atan_pos_s(t: int) -> int {
    if t <= FX_ONE {
        atan_unit_s(t)
    } else {
        sat_s(FX_PI_2 - atan_unit_s(fx_div_s(FX_ONE as int, t)))
    }
}

/// Arctangent of a fixed-point value.
pub fn fx_atan(t: i64) -> (r: i64)
    ensures
        r == fx_atan_s(t as int),
{
    if t < 0 {
        let p = fx_atan_pos(fx_neg(t));
        fx_neg(p)
    } else {
        fx_atan_pos(t)
    }
}

/// Arctangent of a nonnegative fixed-point value.
fn fx_atan_pos(t: i64) -> (r: i64)
    requires
        t >= 0,
    ensures
        r == fx_atan_pos_s(t as int),
        fx_ok(r as int),
{
    if t <= FX_ONE {
        let u = fx_mul(t, fx_add(FX_PI_4, fx_mul(FX_ATAN_C, fx_sub(FX_ONE, t))));
        u
    } else {
        let inv = fx_div(FX_ONE, t);
        let u = fx_mul(inv, fx_add(FX_PI_4, fx_mul(FX_ATAN_C, fx_sub(FX_ONE, inv))));
        fx_sub(FX_PI_2, u)
    }
}

/// Arccosine via `acos(x) = atan2(sqrt(1 - x^2), x)`.
pub open spec fn fx_acos_s(t: int) -> int {
    let s = fx_sqrt_s(sat_s((FX_ONE as int) - fx_mul_s(t, t)));
    if t > 0 {
        fx_atan_s(fx_div_s(s, t))
    } else if t < 0 {
        sat_s((FX_PI as int) - fx_atan_s(fx_div_s(s, sat_s(-t))))
    } else {
        FX_PI_2 as int
    }
}

/// Arccosine of a fixed-point value in `[-1, 1]` (clamped outside).
pub fn fx_acos(t: i64) -> (r: i64)
    ensures
        r == fx_acos_s(t as int),
{
    let s = fx_sqrt(fx_sub(FX_ONE, fx_mul(t, t)));
    if t > 0 {
        fx_atan(fx_div(s, t))
    } else if t < 0 {
        let nt = fx_neg(t);
        fx_sub(FX_PI, fx_atan(fx_div(s, nt)))
    } else {
        FX_PI_2
    }
}

/// Degrees turned into radians: `deg * pi / 180`.
pub open spec fn degrees_to_radians_s(deg: int) -> int {
    fx_div_s(fx_mul_s(deg, FX_PI as int), FX_180 as int)
}

/// Degrees turned into radians.
pub fn degrees_to_radians(deg: i64) -> (r: i64)
    ensures
        r == degrees_to_radians_s(deg as int),
        fx_ok(r as int),
{
    fx_div(fx_mul(deg, FX_PI), FX_180)
}

/// Split a scalar at the binary point: the floor integer and the
/// fractional part as a scalar in `[0, 1)`.
pub fn fx_floor_parts(a: i64) -> (r: (i64, i64))
    ensures
        r.0 == (a as int) / (FX_ONE as int),
        r.1 == (a as int) % (FX_ONE as int),
        0 <= r.1 < FX_ONE,
{
    let m = mod_pos(a, FX_ONE);
    let d: i128 = a as i128 - m as i128;
    proof {
        vstd::arithmetic::div_mod::lemma_fundamental_div_mod(a as int, FX_ONE as int);
        assert(d == (FX_ONE as int) * ((a as int) / (FX_ONE as int)));
        lemma_div_t_exact((a as int) / (FX_ONE as int), FX_ONE as int);
        assert(((a as int) / (FX_ONE as int)) * (FX_ONE as int)
            == (FX_ONE as int) * ((a as int) / (FX_ONE as int))) by (nonlinear_arith);
        assert(-0x8000000000000000 <= (a as int) / (FX_ONE as int) <= 0x8000000000000000);
    }
    let q = div_trunc(d, FX_ONE as i128);
    (q as i64, m)
}

/// Truncating division of nonnegatives is nonnegative.
pub proof fn lemma_div_t_nonneg(a: int, b: int)
    requires
        a >= 0,
        b >= 0,
    ensures
        div_t(a, b) >= 0,
{
}

/// The fixed-point product of nonnegatives is nonnegative.
pub proof fn lemma_fx_mul_nonneg(a: int, b: int)
    requires
        a >= 0,
        b >= 0,
    ensures
        fx_mul_s(a, b) >= 0,
{
    assert(a * b >= 0) by (nonlinear_arith)
        requires
            a >= 0,
            b >= 0,
    ;
    lemma_div_t_nonneg(a * b, FX_ONE as int);
}

/// The fixed-point quotient of nonnegatives is nonnegative.
pub proof fn lemma_fx_div_nonneg(a: int, b: int)
    requires
        a >= 0,
        b >= 0,
    ensures
        fx_div_s(a, b) >= 0,
{
    assert(a * (FX_ONE as int) >= 0) by (nonlinear_arith)
        requires
            a >= 0,
    ;
    lemma_div_t_nonneg(a * (FX_ONE as int), b)
}

} // verus!

