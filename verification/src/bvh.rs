//! Building the bounding-volume hierarchy, and its equivalence with a
//! linear scan of the objects it was built over.

use vstd::prelude::*;
use vstd::seq_lib::lemma_multiset_commutative;
use vstd::multiset::Multiset;
use crate::vec3::v3_get_s;
use crate::ray::Ray;
use crate::hittable::HitRecord;
use crate::aabb::{AABB, aabb_union_s, aabb_hit_s};
use crate::object::{Object, BvhNode, object_hit_s, object_box_s, scan_hit_s,
    is_deterministic_s, mats_below_s};
use crate::rng::random_u64;

verus! {

/// The objects at the leaves of a hierarchy, in tree order; any other
/// object is its own single leaf.
pub open spec fn leaves_s(o: Object) -> Seq<Object>
    decreases o,
{
    match o {
        Object::Bvh(b) => leaves_s(*b.left) + leaves_s(*b.right),
        _ => seq![o],
    }
}

/// The leaves of every member, concatenated in order.
pub open spec fn seq_leaves_s(s: Seq<Object>) -> Seq<Object>
    decreases s,
{
    if s.len() == 0 {
        Seq::empty()
    } else {
        seq_leaves_s(s.drop_last()) + leaves_s(s.last())
    }
}

/// Structural well-formedness of a hierarchy: every node's children have
/// boxes and the node's box is their union.
pub open spec fn bvh_wf_s(o: Object, time0: int, time1: int) -> bool
    decreases o,
{
    match o {
        Object::Bvh(b) => {
            &&& bvh_wf_s(*b.left, time0, time1)
            &&& bvh_wf_s(*b.right, time0, time1)
            &&& object_box_s(*b.left, time0, time1) is Some
            &&& object_box_s(*b.right, time0, time1) is Some
            &&& b.box1 == aabb_union_s(
                object_box_s(*b.left, time0, time1)->Some_0,
                object_box_s(*b.right, time0, time1)->Some_0,
            )
        },
        _ => true,
    }
}

/// Pruning is sound for this ray: wherever a node's box test fails, no leaf
/// below the node hits in that interval. This is the numerical premise the
/// slab test is designed to give; a ray exactly grazing a box boundary can
/// break it, which is the deliberate tie-break of the slab test.
pub open spec fn prune_sound_s(o: Object, r: Ray) -> bool
    decreases o,
{
    match o {
        Object::Bvh(b) => {
            &&& (forall|a: int, z: int| !aabb_hit_s(b.box1, r, a, z)
                ==> scan_hit_s(leaves_s(Object::Bvh(b)), r, a, z) is None)
            &&& prune_sound_s(*b.left, r)
            &&& prune_sound_s(*b.right, r)
        },
        _ => true,
    }
}

/// Scanning a concatenation is scanning the first part, then the second
/// with the interval narrowed to the first part's best hit.
pub proof fn lemma_scan_append(s1: Seq<Object>, s2: Seq<Object>, r: Ray, t_min: int, t_max: int)
    ensures
        scan_hit_s(s1 + s2, r, t_min, t_max) == (match scan_hit_s(s1, r, t_min, t_max) {
            Some(h) => match scan_hit_s(s2, r, t_min, h.t as int) {
                Some(h2) => Some(h2),
                None => Some(h),
            },
            None => scan_hit_s(s2, r, t_min, t_max),
        }),
    decreases s2.len(),
{
    if s2.len() == 0 {
        assert(s1 + s2 =~= s1);
    } else {
        let s2p = s2.drop_last();
        let x = s2.last();
        assert((s1 + s2).drop_last() =~= s1 + s2p);
        assert((s1 + s2).last() == x);
        lemma_scan_append(s1, s2p, r, t_min, t_max);
        match scan_hit_s(s1, r, t_min, t_max) {
            Some(h) => {
                lemma_scan_append(s1, s2p, r, t_min, h.t as int);
            },
            None => {},
        }
    }
}

/// The bounding-volume hierarchy agrees with the linear scan of its leaves:
/// for every query interval, a hierarchy whose box pruning is sound for the
/// ray returns exactly what scanning its leaves in order returns.
///
/// Pruning soundness is a genuine premise about the ray, not a consequence
/// of well-formedness, and that is by design, not a gap left unproved: the
/// slab test deliberately treats a zero-width interval overlap as a miss,
/// so a ray that only grazes a node's box is pruned even when a leaf on
/// that very boundary would report a hit — for instance an x-plane
/// rectangle on the face of its node's box, probed with `t_min` exactly at
/// the crossing parameter: the rectangle's inclusive bound accepts the
/// crossing while the node's strict slab test rejects the zero-width
/// overlap. Truncating division can likewise shrink a computed slab
/// interval by one unit. For rays clear of box boundaries the premise
/// holds, and `lemma_bvh_leaf_box_inside` gives its structural half: every
/// leaf's box sits inside the node boxes above it.
pub proof fn lemma_bvh_scan_equivalence(o: Object, r: Ray, t_min: int, t_max: int)
    requires
        prune_sound_s(o, r),
    ensures
        object_hit_s(o, r, t_min, t_max) == scan_hit_s(leaves_s(o), r, t_min, t_max),
    decreases o,
{
    match o {
        Object::Bvh(b) => {
            assert(o == Object::Bvh(b));
            let ll = leaves_s(*b.left);
            let rr = leaves_s(*b.right);
            assert(leaves_s(o) == ll + rr);
            if !aabb_hit_s(b.box1, r, t_min, t_max) {
                assert(object_hit_s(o, r, t_min, t_max) is None);
                assert(scan_hit_s(leaves_s(o), r, t_min, t_max) is None);
                assert(object_hit_s(o, r, t_min, t_max)
                    == scan_hit_s(leaves_s(o), r, t_min, t_max));
            } else {
                lemma_bvh_scan_equivalence(*b.left, r, t_min, t_max);
                match object_hit_s(*b.left, r, t_min, t_max) {
                    Some(hl) => {
                        lemma_bvh_scan_equivalence(*b.right, r, t_min, hl.t as int);
                        lemma_scan_append(ll, rr, r, t_min, t_max);
                        assert(scan_hit_s(ll, r, t_min, t_max) == Some(hl));
                        assert(object_hit_s(o, r, t_min, t_max)
                            == (match object_hit_s(*b.right, r, t_min, hl.t as int) {
                            Some(hr) => Some(hr),
                            None => Some(hl),
                        }));
                        assert(scan_hit_s(ll + rr, r, t_min, t_max)
                            == (match scan_hit_s(rr, r, t_min, hl.t as int) {
                            Some(hr) => Some(hr),
                            None => Some(hl),
                        }));
                    },
                    None => {
                        lemma_bvh_scan_equivalence(*b.right, r, t_min, t_max);
                        lemma_scan_append(ll, rr, r, t_min, t_max);
                        assert(scan_hit_s(ll, r, t_min, t_max) is None);
                        assert(object_hit_s(o, r, t_min, t_max)
                            == object_hit_s(*b.right, r, t_min, t_max));
                        assert(scan_hit_s(ll + rr, r, t_min, t_max)
                            == scan_hit_s(rr, r, t_min, t_max));
                    },
                }
                assert(object_hit_s(o, r, t_min, t_max)
                    == scan_hit_s(leaves_s(o), r, t_min, t_max));
            }
        },
        _ => {
            let ls = leaves_s(o);
            assert(ls =~= seq![o]);
            assert(ls.drop_last() =~= Seq::<Object>::empty());
            assert(ls.last() == o);
            assert(scan_hit_s(Seq::<Object>::empty(), r, t_min, t_max) is None);
            assert(scan_hit_s(ls, r, t_min, t_max) == object_hit_s(o, r, t_min, t_max));
        },
    }
}

/// Leaves distribute over concatenation.
pub proof fn lemma_seq_leaves_concat(a: Seq<Object>, b: Seq<Object>)
    ensures
        seq_leaves_s(a + b) == seq_leaves_s(a) + seq_leaves_s(b),
    decreases b.len(),
{
    if b.len() == 0 {
        assert(a + b =~= a);
        assert(seq_leaves_s(a) + Seq::<Object>::empty() =~= seq_leaves_s(a));
    } else {
        assert((a + b).drop_last() =~= a + b.drop_last());
        assert((a + b).last() == b.last());
        lemma_seq_leaves_concat(a, b.drop_last());
        assert(seq_leaves_s(a) + seq_leaves_s(b.drop_last()) + leaves_s(b.last())
            =~= seq_leaves_s(a) + (seq_leaves_s(b.drop_last()) + leaves_s(b.last())));
    }
}

/// One box sits inside another, componentwise.
pub open spec fn box_inside_s(inner: AABB, outer: AABB) -> bool {
    &&& outer.minimum.x <= inner.minimum.x
    &&& outer.minimum.y <= inner.minimum.y
    &&& outer.minimum.z <= inner.minimum.z
    &&& inner.maximum.x <= outer.maximum.x
    &&& inner.maximum.y <= outer.maximum.y
    &&& inner.maximum.z <= outer.maximum.z
}

/// In a well-formed hierarchy every leaf has a box, and it sits inside the
/// root's box: the pruning test is structurally aimed at the right region.
pub proof fn lemma_bvh_leaf_box_inside(o: Object, time0: int, time1: int, i: int)
    requires
        bvh_wf_s(o, time0, time1),
        object_box_s(o, time0, time1) is Some,
        0 <= i < leaves_s(o).len(),
    ensures
        object_box_s(leaves_s(o)[i], time0, time1) is Some,
        box_inside_s(
            object_box_s(leaves_s(o)[i], time0, time1)->Some_0,
            object_box_s(o, time0, time1)->Some_0,
        ),
    decreases o,
{
    match o {
        Object::Bvh(b) => {
            let ll = leaves_s(*b.left);
            let rr = leaves_s(*b.right);
            assert(leaves_s(o) == ll + rr);
            if i < ll.len() {
                lemma_bvh_leaf_box_inside(*b.left, time0, time1, i);
                assert((ll + rr)[i] == ll[i]);
            } else {
                lemma_bvh_leaf_box_inside(*b.right, time0, time1, i - ll.len());
                assert((ll + rr)[i] == rr[i - ll.len()]);
            }
        },
        _ => {
            assert(leaves_s(o) =~= seq![o]);
            assert(leaves_s(o)[i] == o);
        },
    }
}

/// The sort key of an object: its box's minimum coordinate on the axis.
pub open spec fn key_s(o: Object, axis: int, time0: int, time1: int) -> int {
    match object_box_s(o, time0, time1) {
        Some(bb) => v3_get_s(bb.minimum, axis),
        None => 0,
    }
}

/// Every member has a bounding box.
pub open spec fn all_boxed_s(s: Seq<Object>, time0: int, time1: int) -> bool {
    forall|i: int| 0 <= i < s.len()
        ==> object_box_s(#[trigger] s[i], time0, time1) is Some
}

/// Every member is a well-formed hierarchy (trivially so for non-nodes).
pub open spec fn all_wf_s(s: Seq<Object>, time0: int, time1: int) -> bool {
    forall|i: int| 0 <= i < s.len() ==> bvh_wf_s(#[trigger] s[i], time0, time1)
}

/// Every member is deterministic.
pub open spec fn all_deterministic_s(s: Seq<Object>) -> bool {
    forall|i: int| 0 <= i < s.len() ==> is_deterministic_s(#[trigger] s[i])
}

/// Every member's material indices are below `n`.
pub open spec fn all_mats_below_s(s: Seq<Object>, n: int) -> bool {
    forall|i: int| 0 <= i < s.len() ==> mats_below_s(#[trigger] s[i], n)
}

/// Nondecreasing keys along the sequence.
pub open spec fn sorted_by_key_s(s: Seq<Object>, axis: int, time0: int, time1: int) -> bool {
    forall|i: int, j: int| 0 <= i < j < s.len()
        ==> key_s(#[trigger] s[i], axis, time0, time1)
            <= key_s(#[trigger] s[j], axis, time0, time1)
}

/// A pair's leaves, spelled out.
proof fn lemma_seq_leaves_single(o: Object)
    ensures
        seq_leaves_s(seq![o]) == leaves_s(o),
{
    assert(seq![o].drop_last() =~= Seq::<Object>::empty());
    assert(seq![o].last() == o);
    assert(seq_leaves_s(Seq::<Object>::empty()) =~= Seq::<Object>::empty());
    assert(seq_leaves_s(seq![o]) == seq_leaves_s(seq![o].drop_last()) + leaves_s(o));
    assert(Seq::<Object>::empty() + leaves_s(o) =~= leaves_s(o));
}

/// A pair's leaves, spelled out.
proof fn lemma_seq_leaves_pair(o1: Object, o2: Object)
    ensures
        seq_leaves_s(seq![o1, o2]) == leaves_s(o1) + leaves_s(o2),
{
    assert(seq![o1, o2].drop_last() =~= seq![o1]);
    assert(seq![o1, o2].last() == o2);
    lemma_seq_leaves_single(o1);
}

/// Boxedness carries across multiset equality.
proof fn lemma_transfer_boxed(a: Seq<Object>, b: Seq<Object>, time0: int, time1: int)
    requires
        a.to_multiset() == b.to_multiset(),
        all_boxed_s(a, time0, time1),
    ensures
        all_boxed_s(b, time0, time1),
{
    broadcast use vstd::seq_lib::group_to_multiset_ensures;

    assert forall|i: int| 0 <= i < b.len() implies
        object_box_s(#[trigger] b[i], time0, time1) is Some by {
        assert(b.contains(b[i]));
        assert(a.to_multiset().count(b[i]) > 0);
        assert(a.contains(b[i]));
        let j = choose|j: int| 0 <= j < a.len() && a[j] == b[i];
        assert(object_box_s(a[j], time0, time1) is Some);
    }
}

/// Well-formedness carries across multiset equality.
proof fn lemma_transfer_wf(a: Seq<Object>, b: Seq<Object>, time0: int, time1: int)
    requires
        a.to_multiset() == b.to_multiset(),
        all_wf_s(a, time0, time1),
    ensures
        all_wf_s(b, time0, time1),
{
    broadcast use vstd::seq_lib::group_to_multiset_ensures;

    assert forall|i: int| 0 <= i < b.len() implies
        bvh_wf_s(#[trigger] b[i], time0, time1) by {
        assert(b.contains(b[i]));
        assert(a.to_multiset().count(b[i]) > 0);
        assert(a.contains(b[i]));
        let j = choose|j: int| 0 <= j < a.len() && a[j] == b[i];
        assert(bvh_wf_s(a[j], time0, time1));
    }
}

/// Determinism carries across multiset equality.
proof fn lemma_transfer_det(a: Seq<Object>, b: Seq<Object>)
    requires
        a.to_multiset() == b.to_multiset(),
        all_deterministic_s(a),
    ensures
        all_deterministic_s(b),
{
    broadcast use vstd::seq_lib::group_to_multiset_ensures;

    assert forall|i: int| 0 <= i < b.len() implies
        is_deterministic_s(#[trigger] b[i]) by {
        assert(b.contains(b[i]));
        assert(a.to_multiset().count(b[i]) > 0);
        assert(a.contains(b[i]));
        let j = choose|j: int| 0 <= j < a.len() && a[j] == b[i];
        assert(is_deterministic_s(a[j]));
    }
}

/// Material bounds carry across multiset equality.
proof fn lemma_transfer_mats(a: Seq<Object>, b: Seq<Object>, n: int)
    requires
        a.to_multiset() == b.to_multiset(),
        all_mats_below_s(a, n),
    ensures
        all_mats_below_s(b, n),
{
    broadcast use vstd::seq_lib::group_to_multiset_ensures;

    assert forall|i: int| 0 <= i < b.len() implies
        mats_below_s(#[trigger] b[i], n) by {
        assert(b.contains(b[i]));
        assert(a.to_multiset().count(b[i]) > 0);
        assert(a.contains(b[i]));
        let j = choose|j: int| 0 <= j < a.len() && a[j] == b[i];
        assert(mats_below_s(a[j], n));
    }
}

/// The box's minimum coordinate on the axis; the sort key of the builder.
fn box_key(o: &Object, axis: usize, time0: i64, time1: i64) -> (k: i64)
    requires
        object_box_s(*o, time0 as int, time1 as int) is Some,
    ensures
        k as int == key_s(*o, axis as int, time0 as int, time1 as int),
{
    match o.bounding_box(time0, time1) {
        Some(bb) => bb.minimum.get(axis),
        None => {
            proof {
                assert(false);
            }
            0
        },
    }
}

/// Selection sort of the objects by box minimum on the chosen axis.
fn sort_by_axis(objects: Vec<Object>, axis: usize, time0: i64, time1: i64) -> (r: Vec<Object>)
    requires
        all_boxed_s(objects@, time0 as int, time1 as int),
    ensures
        r@.to_multiset() == objects@.to_multiset(),
        seq_leaves_s(r@).to_multiset() == seq_leaves_s(objects@).to_multiset(),
        r@.len() == objects@.len(),
        sorted_by_key_s(r@, axis as int, time0 as int, time1 as int),
        all_boxed_s(r@, time0 as int, time1 as int),
{
    let ghost orig = objects@;
    let mut src = objects;
    let mut out: Vec<Object> = Vec::new();
    proof {
        broadcast use vstd::seq_lib::group_to_multiset_ensures;

        assert(out@.to_multiset() =~= Multiset::<Object>::empty());
        assert(seq_leaves_s(out@) =~= Seq::<Object>::empty());
        assert(out@.to_multiset().add(src@.to_multiset()) =~= orig.to_multiset());
        assert(seq_leaves_s(out@).to_multiset().add(seq_leaves_s(src@).to_multiset())
            =~= seq_leaves_s(orig).to_multiset());
    }
    while src.len() > 0
        invariant
            out@.to_multiset().add(src@.to_multiset()) == orig.to_multiset(),
            seq_leaves_s(out@).to_multiset().add(seq_leaves_s(src@).to_multiset())
                == seq_leaves_s(orig).to_multiset(),
            out@.len() + src@.len() == orig.len(),
            all_boxed_s(src@, time0 as int, time1 as int),
            all_boxed_s(out@, time0 as int, time1 as int),
            sorted_by_key_s(out@, axis as int, time0 as int, time1 as int),
            forall|i: int, j: int| 0 <= i < out@.len() && 0 <= j < src@.len()
                ==> key_s(#[trigger] out@[i], axis as int, time0 as int, time1 as int)
                    <= key_s(#[trigger] src@[j], axis as int, time0 as int, time1 as int),
        decreases src.len(),
    {
        let mut best: usize = 0;
        let mut bestk: i64 = box_key(&src[0], axis, time0, time1);
        let mut k: usize = 1;
        while k < src.len()
            invariant
                1 <= k <= src@.len(),
                0 <= best < src@.len(),
                all_boxed_s(src@, time0 as int, time1 as int),
                bestk as int == key_s(src@[best as int], axis as int, time0 as int, time1 as int),
                forall|i: int| 0 <= i < k
                    ==> bestk as int <= key_s(
                        #[trigger] src@[i], axis as int, time0 as int, time1 as int),
            decreases src@.len() - k,
        {
            let kk = box_key(&src[k], axis, time0, time1);
            if kk < bestk {
                best = k;
                bestk = kk;
            }
            k = k + 1;
        }
        let ghost src_pre = src@;
        let picked = src.remove(best);
        proof {
            broadcast use vstd::seq_lib::group_to_multiset_ensures;

            assert(src@ == src_pre.remove(best as int));
            assert(src@.to_multiset() =~= src_pre.to_multiset().remove(picked));
            assert(out@.push(picked).to_multiset() =~= out@.to_multiset().insert(picked));
            assert(src_pre.to_multiset().count(picked) > 0);
            assert(out@.push(picked).to_multiset().add(src@.to_multiset())
                =~= out@.to_multiset().add(src_pre.to_multiset()));
            let front = src_pre.subrange(0, best as int);
            let back = src_pre.subrange(best as int + 1, src_pre.len() as int);
            assert(src_pre =~= front.push(picked) + back);
            assert(src@ =~= front + back);
            lemma_seq_leaves_concat(front.push(picked), back);
            lemma_seq_leaves_concat(front, back);
            assert(front.push(picked).drop_last() =~= front);
            assert(front.push(picked).last() == picked);
            assert(seq_leaves_s(front.push(picked)) == seq_leaves_s(front) + leaves_s(picked));
            lemma_multiset_commutative(seq_leaves_s(front) + leaves_s(picked),
                seq_leaves_s(back));
            lemma_multiset_commutative(seq_leaves_s(front), leaves_s(picked));
            lemma_multiset_commutative(seq_leaves_s(front), seq_leaves_s(back));
            assert(out@.push(picked).drop_last() =~= out@);
            assert(out@.push(picked).last() == picked);
            assert(seq_leaves_s(out@.push(picked)) == seq_leaves_s(out@) + leaves_s(picked));
            lemma_multiset_commutative(seq_leaves_s(out@), leaves_s(picked));
            assert(seq_leaves_s(out@.push(picked)).to_multiset().add(
                seq_leaves_s(src@).to_multiset())
                =~= seq_leaves_s(out@).to_multiset().add(seq_leaves_s(src_pre).to_multiset()));
        }
        out.push(picked);
    }
    proof {
        assert(seq_leaves_s(src@) =~= Seq::<Object>::empty());
        broadcast use vstd::seq_lib::group_to_multiset_ensures;

        assert(src@.to_multiset() =~= Multiset::<Object>::empty());
        assert(out@.to_multiset() =~= out@.to_multiset().add(src@.to_multiset()));
        assert(seq_leaves_s(out@).to_multiset()
            =~= seq_leaves_s(out@).to_multiset().add(seq_leaves_s(src@).to_multiset()));
    }
    out
}

impl BvhNode {
    /// Build a hierarchy over the objects for the time interval.
    ///
    /// A single object is its own tree; a pair is ordered by box minimum on
    /// a randomly chosen axis; a longer span is sorted on that axis, split
    /// at the midpoint and built recursively, the node's box being the
    /// union of the children's. Objects without a bounding box are a scene
    /// configuration error and are excluded by precondition.
    pub fn new(objects: Vec<Object>, time0: i64, time1: i64) -> (r: Object)
        requires
            objects@.len() >= 1,
            all_boxed_s(objects@, time0 as int, time1 as int),
            all_wf_s(objects@, time0 as int, time1 as int),
        ensures
            leaves_s(r).to_multiset() == seq_leaves_s(objects@).to_multiset(),
            bvh_wf_s(r, time0 as int, time1 as int),
            object_box_s(r, time0 as int, time1 as int) is Some,
            all_deterministic_s(objects@) ==> is_deterministic_s(r),
            forall|n: int| all_mats_below_s(objects@, n) ==> mats_below_s(r, n),
        decreases objects@.len(),
    {
        let axis = random_u64(3) as usize;
        let ghost entry = objects@;
        let mut objects = objects;
        if objects.len() == 1 {
            let o = match objects.pop() {
                Some(o) => o,
                None => {
                    proof {
                        assert(false);
                    }
                    Object::List(crate::object::HittableList { objects: Vec::new() })
                },
            };
            proof {
                broadcast use vstd::seq_lib::group_to_multiset_ensures;

                assert(entry =~= seq![o]);
                lemma_seq_leaves_single(o);
                assert(entry[0] == o);
            }
            o
        } else if objects.len() == 2 {
            let o2 = match objects.pop() {
                Some(o) => o,
                None => {
                    proof {
                        assert(false);
                    }
                    Object::List(crate::object::HittableList { objects: Vec::new() })
                },
            };
            let o1 = match objects.pop() {
                Some(o) => o,
                None => {
                    proof {
                        assert(false);
                    }
                    Object::List(crate::object::HittableList { objects: Vec::new() })
                },
            };
            proof {
                assert(entry =~= seq![o1, o2]);
                assert(entry[0] == o1);
                assert(entry[1] == o2);
            }
            let k1 = box_key(&o1, axis, time0, time1);
            let k2 = box_key(&o2, axis, time0, time1);
            let (left, right) = if k1 <= k2 {
                (o1, o2)
            } else {
                (o2, o1)
            };
            let bl = match left.bounding_box(time0, time1) {
                Some(bb) => bb,
                None => {
                    proof {
                        assert(false);
                    }
                    AABB::new(crate::vec3::Vec3::zero(), crate::vec3::Vec3::zero())
                },
            };
            let br = match right.bounding_box(time0, time1) {
                Some(bb) => bb,
                None => {
                    proof {
                        assert(false);
                    }
                    AABB::new(crate::vec3::Vec3::zero(), crate::vec3::Vec3::zero())
                },
            };
            let node = Object::Bvh(BvhNode {
                left: Box::new(left),
                right: Box::new(right),
                box1: AABB::surrounding_box(bl, br),
            });
            proof {
                broadcast use vstd::seq_lib::group_to_multiset_ensures;

                lemma_seq_leaves_pair(o1, o2);
                assert(seq_leaves_s(entry) == leaves_s(o1) + leaves_s(o2));
                lemma_multiset_commutative(leaves_s(o1), leaves_s(o2));
                lemma_multiset_commutative(leaves_s(o2), leaves_s(o1));
                match &node {
                    Object::Bvh(b) => {
                        lemma_multiset_commutative(leaves_s(*b.left), leaves_s(*b.right));
                    },
                    _ => {},
                }
            }
            node
        } else {
            let sorted = sort_by_axis(objects, axis, time0, time1);
            proof {
                lemma_transfer_wf(entry, sorted@, time0 as int, time1 as int);
            }
            let ghost sorted_view = sorted@;
            let mid = sorted.len() / 2;
            let mut left_v = sorted;
            let right_v = left_v.split_off(mid);
            proof {
                assert(left_v@ == sorted_view.subrange(0, mid as int));
                assert(right_v@ == sorted_view.subrange(mid as int, sorted_view.len() as int));
                assert(sorted_view =~= left_v@ + right_v@);
                assert forall|i: int| 0 <= i < left_v@.len() implies
                    object_box_s(#[trigger] left_v@[i], time0 as int, time1 as int) is Some by {
                    assert(left_v@[i] == sorted_view[i]);
                }
                assert forall|i: int| 0 <= i < right_v@.len() implies
                    object_box_s(#[trigger] right_v@[i], time0 as int, time1 as int) is Some by {
                    assert(right_v@[i] == sorted_view[mid as int + i]);
                }
                assert forall|i: int| 0 <= i < left_v@.len() implies
                    bvh_wf_s(#[trigger] left_v@[i], time0 as int, time1 as int) by {
                    assert(left_v@[i] == sorted_view[i]);
                }
                assert forall|i: int| 0 <= i < right_v@.len() implies
                    bvh_wf_s(#[trigger] right_v@[i], time0 as int, time1 as int) by {
                    assert(right_v@[i] == sorted_view[mid as int + i]);
                }
            }
            let left = BvhNode::new(left_v, time0, time1);
            let right = BvhNode::new(right_v, time0, time1);
            let bl = match left.bounding_box(time0, time1) {
                Some(bb) => bb,
                None => {
                    proof {
                        assert(false);
                    }
                    AABB::new(crate::vec3::Vec3::zero(), crate::vec3::Vec3::zero())
                },
            };
            let br = match right.bounding_box(time0, time1) {
                Some(bb) => bb,
                None => {
                    proof {
                        assert(false);
                    }
                    AABB::new(crate::vec3::Vec3::zero(), crate::vec3::Vec3::zero())
                },
            };
            let node = Object::Bvh(BvhNode {
                left: Box::new(left),
                right: Box::new(right),
                box1: AABB::surrounding_box(bl, br),
            });
            proof {
                broadcast use vstd::seq_lib::group_to_multiset_ensures;

                lemma_seq_leaves_concat(left_v@, right_v@);
                lemma_multiset_commutative(seq_leaves_s(left_v@), seq_leaves_s(right_v@));
                lemma_multiset_commutative(leaves_s(left), leaves_s(right));
                assert forall|n: int| all_mats_below_s(entry, n) implies
                    mats_below_s(node, n) by {
                    lemma_transfer_mats(entry, sorted_view, n);
                    assert forall|i: int| 0 <= i < left_v@.len() implies
                        mats_below_s(#[trigger] left_v@[i], n) by {
                        assert(left_v@[i] == sorted_view[i]);
                    }
                    assert forall|i: int| 0 <= i < right_v@.len() implies
                        mats_below_s(#[trigger] right_v@[i], n) by {
                        assert(right_v@[i] == sorted_view[mid as int + i]);
                    }
                    assert(all_mats_below_s(left_v@, n));
                    assert(all_mats_below_s(right_v@, n));
                    assert(mats_below_s(left, n));
                    assert(mats_below_s(right, n));
                }
                if all_deterministic_s(entry) {
                    lemma_transfer_det(entry, sorted_view);
                    assert forall|i: int| 0 <= i < left_v@.len() implies
                        is_deterministic_s(#[trigger] left_v@[i]) by {
                        assert(left_v@[i] == sorted_view[i]);
                    }
                    assert forall|i: int| 0 <= i < right_v@.len() implies
                        is_deterministic_s(#[trigger] right_v@[i]) by {
                        assert(right_v@[i] == sorted_view[mid as int + i]);
                    }
                    assert(all_deterministic_s(left_v@));
                    assert(all_deterministic_s(right_v@));
                }
            }
            node
        }
    }
}

/// Check the hierarchy invariant of one object at run time.
fn wf_check(o: &Object, time0: i64, time1: i64) -> (r: bool)
    ensures
        r == bvh_wf_s(*o, time0 as int, time1 as int),
    decreases *o,
{
    match o {
        Object::Bvh(b) => {
            proof {
                assert(decreases_to!(*o => *b.left));
                assert(decreases_to!(*o => *b.right));
            }
            let bl = b.left.bounding_box(time0, time1);
            let br = b.right.bounding_box(time0, time1);
            match (bl, br) {
                (Some(lb), Some(rb)) => {
                    let u = AABB::surrounding_box(lb, rb);
                    wf_check(&b.left, time0, time1) && wf_check(&b.right, time0, time1)
                        && b.box1 == u
                },
                _ => false,
            }
        },
        _ => true,
    }
}

/// Check the builder's preconditions at run time: every object has a box
/// and is a well-formed hierarchy (for callers outside the verified world
/// that must establish them before building).
pub fn bvh_input_check(objects: &Vec<Object>, time0: i64, time1: i64) -> (r: bool)
    ensures
        r == (all_boxed_s(objects@, time0 as int, time1 as int)
            && all_wf_s(objects@, time0 as int, time1 as int)),
{
    let mut i: usize = 0;
    while i < objects.len()
        invariant
            0 <= i <= objects@.len(),
            forall|j: int| 0 <= j < i
                ==> object_box_s(#[trigger] objects@[j], time0 as int, time1 as int) is Some,
            forall|j: int| 0 <= j < i
                ==> bvh_wf_s(#[trigger] objects@[j], time0 as int, time1 as int),
        decreases objects@.len() - i,
    {
        let boxed = objects[i].bounding_box(time0, time1).is_some();
        if !boxed {
            return false;
        }
        if !wf_check(&objects[i], time0, time1) {
            return false;
        }
        i = i + 1;
    }
    true
}

} // verus!
