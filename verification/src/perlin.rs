//! Perlin gradient noise over a lattice of random unit vectors.

use vstd::prelude::*;
use vstd::pervasive::VecAdditionalExecFns;
use vstd::seq_lib::lemma_multiset_commutative;
use vstd::multiset::Multiset;
use crate::fx::{FX_ONE, FX_TWO, FX_THREE};
use crate::fx::{fx_add, fx_sub, fx_mul, fx_abs, fx_floor_parts, mod_pos};
use crate::fx::{sat_s, abs_i, fx_mul_s};
use crate::vec3::{Vec3, v3_dot_s, v3_scale_s};
use crate::rng::{random_int, random_range};

verus! {

/// The lattice size: each permutation table indexes this many entries.
pub const POINT_COUNT: usize = 256;

/// Random gradient vectors and three axis permutation tables.
pub struct Perlin {
    pub ranvec: Vec<Vec3>,
    pub perm_x: Vec<i32>,
    pub perm_y: Vec<i32>,
    pub perm_z: Vec<i32>,
}

/// A permutation table is usable: full sized with in-range entries.
pub open spec fn perm_ok_s(p: Seq<i32>) -> bool {
    p.len() == 256 && forall|i: int| 0 <= i < p.len() ==> 0 <= #[trigger] p[i] < 256
}

/// The lattice is usable: full tables and a full gradient vector list.
pub open spec fn perlin_ok_s(p: Perlin) -> bool {
    p.ranvec@.len() == 256 && perm_ok_s(p.perm_x@) && perm_ok_s(p.perm_y@)
        && perm_ok_s(p.perm_z@)
}

/// The smoothstep weight `t² (3 - 2t)`.
pub open spec fn smooth_s(t: int) -> int {
    fx_mul_s(fx_mul_s(t, t), sat_s((FX_THREE as int) - fx_mul_s(FX_TWO as int, t)))
}

/// One corner's contribution to the trilinear blend.
pub open spec fn corner_term_s(sel: int, w: int) -> int {
    if sel == 1 {
        w
    } else {
        sat_s((FX_ONE as int) - w)
    }
}

/// One corner's weighted gradient dot product.
pub open spec fn corner_s(c: Vec3, i: int, j: int, k: int, u: int, v: int, w: int) -> int {
    let uu = smooth_s(u);
    let vv = smooth_s(v);
    let ww = smooth_s(w);
    let weight = fx_mul_s(fx_mul_s(corner_term_s(i, uu), corner_term_s(j, vv)),
        corner_term_s(k, ww));
    let d = Vec3 {
        x: sat_s(u - i * (FX_ONE as int)) as i64,
        y: sat_s(v - j * (FX_ONE as int)) as i64,
        z: sat_s(w - k * (FX_ONE as int)) as i64,
    };
    fx_mul_s(weight, v3_dot_s(c, d))
}

/// The trilinear blend of the eight corner gradients.
pub open spec fn trilinear_s(c000: Vec3, c001: Vec3, c010: Vec3, c011: Vec3,
    c100: Vec3, c101: Vec3, c110: Vec3, c111: Vec3, u: int, v: int, w: int) -> int {
    sat_s(sat_s(sat_s(sat_s(sat_s(sat_s(sat_s(
        corner_s(c000, 0, 0, 0, u, v, w)
        + corner_s(c001, 0, 0, 1, u, v, w))
        + corner_s(c010, 0, 1, 0, u, v, w))
        + corner_s(c011, 0, 1, 1, u, v, w))
        + corner_s(c100, 1, 0, 0, u, v, w))
        + corner_s(c101, 1, 0, 1, u, v, w))
        + corner_s(c110, 1, 1, 0, u, v, w))
        + corner_s(c111, 1, 1, 1, u, v, w))
}

/// The gradient vector at lattice cell `(i+di, j+dj, k+dk)`.
pub open spec fn lattice_s(p: Perlin, i: int, j: int, k: int) -> Vec3 {
    let xi = p.perm_x@[i % 256];
    let yi = p.perm_y@[j % 256];
    let zi = p.perm_z@[k % 256];
    p.ranvec@[(xi ^ yi ^ zi) as int]
}

/// The noise value at a point: the trilinear blend of the gradients at the
/// surrounding cell's corners, weighted against the fractional offsets.
pub open spec fn noise_s(p: Perlin, pt: Vec3) -> int {
    let i = (pt.x as int) / (FX_ONE as int);
    let j = (pt.y as int) / (FX_ONE as int);
    let k = (pt.z as int) / (FX_ONE as int);
    let u = (pt.x as int) % (FX_ONE as int);
    let v = (pt.y as int) % (FX_ONE as int);
    let w = (pt.z as int) % (FX_ONE as int);
    trilinear_s(
        lattice_s(p, i, j, k), lattice_s(p, i, j, k + 1),
        lattice_s(p, i, j + 1, k), lattice_s(p, i, j + 1, k + 1),
        lattice_s(p, i + 1, j, k), lattice_s(p, i + 1, j, k + 1),
        lattice_s(p, i + 1, j + 1, k), lattice_s(p, i + 1, j + 1, k + 1),
        u, v, w)
}

/// Turbulence: octaves of noise at doubling frequency and halving weight,
/// with the magnitude of the sum as the result.
pub open spec fn turb_s(p: Perlin, pt: Vec3, depth: int) -> int
    decreases depth,
{
    sat_s(abs_i(turb_acc_s(p, pt, depth)))
}

/// The signed turbulence accumulator.
pub open spec fn turb_acc_s(p: Perlin, pt: Vec3, depth: int) -> int
    decreases depth,
{
    if depth <= 0 {
        0
    } else {
        sat_s(turb_acc_s(p, pt, depth - 1) + fx_mul_s(turb_weight_s(depth - 1),
            noise_s(p, turb_point_s(pt, depth - 1))))
    }
}

/// The weight of octave `n`: one half to the `n`.
pub open spec fn turb_weight_s(n: int) -> int
    decreases n,
{
    if n <= 0 {
        FX_ONE as int
    } else {
        fx_mul_s(turb_weight_s(n - 1), 32768)
    }
}

/// The sample point of octave `n`: the input scaled by two to the `n`.
pub open spec fn turb_point_s(pt: Vec3, n: int) -> Vec3
    decreases n,
{
    if n <= 0 {
        pt
    } else {
        v3_scale_s(turb_point_s(pt, n - 1), FX_TWO as int)
    }
}

/// The smoothstep weight.
fn smooth(t: i64) -> (r: i64)
    ensures
        r == smooth_s(t as int),
{
    fx_mul(fx_mul(t, t), fx_sub(FX_THREE, fx_mul(FX_TWO, t)))
}

/// One corner's weighted gradient dot product; the selectors are 0 or 1.
fn corner(c: Vec3, i: i64, j: i64, k: i64, u: i64, v: i64, w: i64) -> (r: i64)
    requires
        0 <= i <= 1,
        0 <= j <= 1,
        0 <= k <= 1,
    ensures
        r == corner_s(c, i as int, j as int, k as int, u as int, v as int, w as int),
{
    let uu = smooth(u);
    let vv = smooth(v);
    let ww = smooth(w);
    let ti = if i == 1 { uu } else { fx_sub(FX_ONE, uu) };
    let tj = if j == 1 { vv } else { fx_sub(FX_ONE, vv) };
    let tk = if k == 1 { ww } else { fx_sub(FX_ONE, ww) };
    let weight = fx_mul(fx_mul(ti, tj), tk);
    let d = Vec3::new(
        fx_sub(u, i * FX_ONE),
        fx_sub(v, j * FX_ONE),
        fx_sub(w, k * FX_ONE),
    );
    fx_mul(weight, Vec3::dot(c, d))
}

/// Overwriting one entry trades its old value for the new one in the
/// table's multiset.
proof fn lemma_update_multiset(s: Seq<i32>, i: int, v: i32)
    requires
        0 <= i < s.len(),
    ensures
        s.update(i, v).to_multiset() == s.to_multiset().remove(s[i]).insert(v),
{
    broadcast use vstd::seq_lib::group_to_multiset_ensures;

    let front = s.subrange(0, i);
    let back = s.subrange(i + 1, s.len() as int);
    assert(s =~= front + (seq![s[i]] + back));
    assert(s.update(i, v) =~= front + (seq![v] + back));
    assert(seq![s[i]] =~= Seq::<i32>::empty().push(s[i]));
    assert(seq![v] =~= Seq::<i32>::empty().push(v));
    assert(Seq::<i32>::empty().to_multiset() =~= Multiset::<i32>::empty());
    lemma_multiset_commutative(front, seq![s[i]] + back);
    lemma_multiset_commutative(seq![s[i]], back);
    lemma_multiset_commutative(front, seq![v] + back);
    lemma_multiset_commutative(seq![v], back);
    assert(s.update(i, v).to_multiset() =~= s.to_multiset().remove(s[i]).insert(v));
}

/// Swapping two entries leaves the table's multiset unchanged.
proof fn lemma_swap_multiset(s: Seq<i32>, i: int, j: int)
    requires
        0 <= i < s.len(),
        0 <= j < s.len(),
        i != j,
    ensures
        s.update(i, s[j]).update(j, s[i]).to_multiset() == s.to_multiset(),
{
    broadcast use vstd::seq_lib::group_to_multiset_ensures;

    let u1 = s.update(i, s[j]);
    lemma_update_multiset(s, i, s[j]);
    assert(u1[j] == s[j]);
    lemma_update_multiset(u1, j, s[i]);
    assert(s.to_multiset().contains(s[i]));
    assert(u1.update(j, s[i]).to_multiset() =~= s.to_multiset());
}

impl Perlin {
    /// A fresh lattice: random unit gradients and freshly permuted tables.
    pub fn new() -> (r: Perlin)
        ensures
            perlin_ok_s(r),
    {
        let mut ranv: Vec<Vec3> = Vec::new();
        let mut n: usize = 0;
        while n < POINT_COUNT
            invariant
                ranv@.len() == n,
                n <= 256,
            decreases 256 - n,
        {
            let v = Vec3::new(
                random_range(-FX_ONE, FX_ONE),
                random_range(-FX_ONE, FX_ONE),
                random_range(-FX_ONE, FX_ONE),
            );
            ranv.push(v.unit());
            n = n + 1;
        }
        let mut x: Vec<i32> = Vec::new();
        let mut y: Vec<i32> = Vec::new();
        let mut z: Vec<i32> = Vec::new();
        Perlin::perlin_generate_perm(&mut x);
        Perlin::perlin_generate_perm(&mut y);
        Perlin::perlin_generate_perm(&mut z);
        Perlin { ranvec: ranv, perm_x: x, perm_y: y, perm_z: z }
    }

    /// Fill a table with the identity and shuffle it.
    pub fn perlin_generate_perm(p: &mut Vec<i32>)
        ensures
            perm_ok_s(final(p)@),
    {
        p.clear();
        let mut i: usize = 0;
        while i < POINT_COUNT
            invariant
                p@.len() == i,
                i <= 256,
                forall|j: int| 0 <= j < i ==> 0 <= #[trigger] p@[j] < 256,
            decreases 256 - i,
        {
            p.push(i as i32);
            i = i + 1;
        }
        Perlin::permute(p, POINT_COUNT);
    }

    /// Shuffle the table in place by random downward swaps: the result is
    /// a permutation of the input (the multiset of entries is unchanged),
    /// and every entry keeps its range.
    pub fn permute(p: &mut Vec<i32>, n: usize)
        requires
            n <= old(p)@.len(),
            n <= 0x7fffffff,
            forall|j: int| 0 <= j < old(p)@.len() ==> 0 <= #[trigger] old(p)@[j] < 256,
        ensures
            final(p)@.len() == old(p)@.len(),
            final(p)@.to_multiset() == old(p)@.to_multiset(),
            forall|j: int| 0 <= j < final(p)@.len() ==> 0 <= #[trigger] final(p)@[j] < 256,
    {
        if n == 0 {
            return;
        }
        let mut i: usize = n - 1;
        while i > 0
            invariant
                0 <= i < n <= p@.len(),
                n <= 0x7fffffff,
                p@.len() == old(p)@.len(),
                p@.to_multiset() == old(p)@.to_multiset(),
                forall|j: int| 0 <= j < p@.len() ==> 0 <= #[trigger] p@[j] < 256,
            decreases i,
        {
            let target = random_int(0, i as i32) as usize;
            let ghost pre = p@;
            let a = p[i];
            let b = p[target];
            p.set(i, b);
            p.set(target, a);
            proof {
                lemma_swap_multiset(pre, i as int, target as int);
            }
            i = i - 1;
        }
    }

    /// The noise value at a point.
    pub fn noise(&self, pt: Vec3) -> (r: i64)
        requires
            perlin_ok_s(*self),
        ensures
            r == noise_s(*self, pt),
    {
        let (i, u) = fx_floor_parts(pt.x);
        let (j, v) = fx_floor_parts(pt.y);
        let (k, w) = fx_floor_parts(pt.z);
        let c000 = self.lattice(i, j, k);
        let c001 = self.lattice(i, j, fx_add(k, 1));
        let c010 = self.lattice(i, fx_add(j, 1), k);
        let c011 = self.lattice(i, fx_add(j, 1), fx_add(k, 1));
        let c100 = self.lattice(fx_add(i, 1), j, k);
        let c101 = self.lattice(fx_add(i, 1), j, fx_add(k, 1));
        let c110 = self.lattice(fx_add(i, 1), fx_add(j, 1), k);
        let c111 = self.lattice(fx_add(i, 1), fx_add(j, 1), fx_add(k, 1));
        let t0 = fx_add(corner(c000, 0, 0, 0, u, v, w), corner(c001, 0, 0, 1, u, v, w));
        let t1 = fx_add(t0, corner(c010, 0, 1, 0, u, v, w));
        let t2 = fx_add(t1, corner(c011, 0, 1, 1, u, v, w));
        let t3 = fx_add(t2, corner(c100, 1, 0, 0, u, v, w));
        let t4 = fx_add(t3, corner(c101, 1, 0, 1, u, v, w));
        let t5 = fx_add(t4, corner(c110, 1, 1, 0, u, v, w));
        fx_add(t5, corner(c111, 1, 1, 1, u, v, w))
    }

    /// The gradient at a lattice cell, selected through the three
    /// permutation tables combined by exclusive or.
    fn lattice(&self, i: i64, j: i64, k: i64) -> (r: Vec3)
        requires
            perlin_ok_s(*self),
        ensures
            r == lattice_s(*self, i as int, j as int, k as int),
    {
        let xi = self.perm_x[mod_pos(i, 256) as usize];
        let yi = self.perm_y[mod_pos(j, 256) as usize];
        let zi = self.perm_z[mod_pos(k, 256) as usize];
        let idx = xi ^ yi ^ zi;
        proof {
            assert(0 <= xi < 256 && 0 <= yi < 256 && 0 <= zi < 256 ==> 0 <= (xi ^ yi ^ zi) < 256)
                by (bit_vector);
        }
        self.ranvec[idx as usize]
    }

    /// Turbulence: octaves of noise at doubling frequency and halving weight.
    pub fn turb(&self, pt: Vec3, depth: i32) -> (r: i64)
        requires
            perlin_ok_s(*self),
        ensures
            r == turb_s(*self, pt, depth as int),
    {
        let mut accum: i64 = 0;
        let mut tmp_p = pt;
        let mut weight: i64 = FX_ONE;
        let mut n: i32 = 0;
        let d = if depth < 0 { 0 } else { depth };
        proof {
            assert(turb_acc_s(*self, pt, 0) == 0);
        }
        while n < d
            invariant
                0 <= n <= d,
                d as int == (if depth < 0 { 0int } else { depth as int }),
                perlin_ok_s(*self),
                accum == turb_acc_s(*self, pt, n as int),
                weight == turb_weight_s(n as int),
                tmp_p == turb_point_s(pt, n as int),
            decreases d - n,
        {
            accum = fx_add(accum, fx_mul(weight, self.noise(tmp_p)));
            weight = fx_mul(weight, 32768);
            tmp_p = tmp_p.scale(FX_TWO);
            n = n + 1;
        }
        proof {
            if depth < 0 {
                assert(turb_acc_s(*self, pt, depth as int) == 0);
            }
        }
        fx_abs(accum)
    }
}

/// Check that a permutation table is usable.
pub fn perm_check(p: &Vec<i32>) -> (r: bool)
    ensures
        r == perm_ok_s(p@),
{
    if p.len() != 256 {
        return false;
    }
    let mut i: usize = 0;
    while i < p.len()
        invariant
            0 <= i <= p@.len(),
            p@.len() == 256,
            forall|j: int| 0 <= j < i ==> 0 <= #[trigger] p@[j] < 256,
        decreases p@.len() - i,
    {
        if p[i] < 0 || p[i] >= 256 {
            return false;
        }
        i = i + 1;
    }
    true
}

} // verus!
