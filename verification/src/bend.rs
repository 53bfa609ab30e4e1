//! Placement plan for the bend term.
//!
//! Each interior vertex `k` carries a 4-component material curvature
//! `kappa_k` with gradient blocks with respect to its three neighbouring
//! vertices `k - 1`, `k`, `k + 1` (written `grad(v, k)` for the block with
//! respect to vertex `v`; it exists exactly when `k` is interior and
//! `|v - k| <= 1`).
//!
//! Bend force on interior vertex `i`:
//! `-(pi * r^4 * E / 8) * sum over k of grad(i, k)^T * (kappa_k - initial_kappa_k) / len_k`,
//! with `k` ranging over the interior vertices at distance at most one from
//! `i`. The Gauss-Newton Hessian block at `(a, b)` is
//! `(pi * r^4 * E / 8) * sum over k of grad(a, k)^T * grad(b, k) / len_k`,
//! with `k` ranging over the interior vertices at distance at most one from
//! both `a` and `b`; a block is planned only where that set is non-empty,
//! which confines it to the band `|a - b| <= 2`.
//!
//! The host evaluates the gradients on its float state and accumulates the
//! sums at exactly the entries planned here.

use vstd::prelude::*;

use crate::topology::StrandTopology;

verus! {

/// One Hessian accumulation of the bend term: at block `(row, col)`, add
/// the sum over the curvature indices in `terms` of
/// `grad(row, k)^T * grad(col, k) / len_k`, scaled by the bend stiffness.
#[derive(PartialEq, Eq, Debug)]
pub struct BendSlot {
    /// Block row, in vertex indices; an interior vertex.
    pub row: usize,
    /// Block column, in vertex indices; an interior vertex.
    pub col: usize,
    /// The curvature indices summed at this block, in increasing order.
    pub terms: Vec<usize>,
}

/// One force application of the bend term: vertex `vertex` receives the sum
/// over the curvature indices in `terms` of
/// `grad(vertex, k)^T * (kappa_k - initial_kappa_k) / len_k`, scaled by the
/// negated bend stiffness.
#[derive(PartialEq, Eq, Debug)]
pub struct BendForce {
    /// The interior vertex that receives the force.
    pub vertex: usize,
    /// The curvature indices summed into it, in increasing order.
    pub terms: Vec<usize>,
}

/// Curvature index `k` contributes to the bend Hessian block `(a, b)`: both
/// gradient factors exist.
pub open spec fn spec_bend_term(t: StrandTopology, a: int, b: int, k: int) -> bool {
    t.spec_interior(a) && t.spec_interior(b) && t.spec_interior(k) && a - 1 <= k <= a + 1 && b - 1
        <= k <= b + 1
}

/// The bend term accumulates a block at `(a, b)`: some curvature index
/// contributes there.
pub open spec fn spec_bend_slot(t: StrandTopology, a: int, b: int) -> bool {
    exists|k: int| #[trigger] spec_bend_term(t, a, b, k)
}

/// Smallest curvature index that can contribute at `(a, b)`.
pub open spec fn spec_term_lo(t: StrandTopology, a: int, b: int) -> int {
    let m = if a >= b {
        a
    } else {
        b
    };
    if m - 1 >= 1 {
        m - 1
    } else {
        1
    }
}

/// Largest curvature index that can contribute at `(a, b)`.
pub open spec fn spec_term_hi(t: StrandTopology, a: int, b: int) -> int {
    let m = if a <= b {
        a
    } else {
        b
    };
    if m + 1 <= t.v_num - 2 {
        m + 1
    } else {
        t.v_num - 2
    }
}

/// The contributing curvature indices at `(a, b)`, in increasing order.
pub open spec fn spec_bend_terms(t: StrandTopology, a: int, b: int) -> Seq<usize> {
    let lo = spec_term_lo(t, a, b);
    let hi = spec_term_hi(t, a, b);
    if lo <= hi {
        Seq::new((hi + 1 - lo) as nat, |j: int| (lo + j) as usize)
    } else {
        Seq::empty()
    }
}

/// A planned bend slot is exact: interior row and column, and precisely the
/// contributing curvature indices, at least one of them.
pub open spec fn spec_bend_slot_ok(t: StrandTopology, s: BendSlot) -> bool {
    t.spec_interior(s.row as int) && t.spec_interior(s.col as int) && s.terms@
        == spec_bend_terms(t, s.row as int, s.col as int) && s.terms@.len() > 0
}

/// A plan sequence places a bend block at `(a, b)`.
pub open spec fn spec_places_bend(s: Seq<BendSlot>, a: int, b: int) -> bool {
    exists|j: int| 0 <= j < s.len() && (#[trigger] s[j]).row == a && s[j].col == b
}

/// Slots are emitted in strictly increasing `(row, col)` order.
pub open spec fn spec_bend_lex_lt(s1: BendSlot, s2: BendSlot) -> bool {
    s1.row < s2.row || (s1.row == s2.row && s1.col < s2.col)
}

/// Which of vertex `v`'s three gradient blocks belongs to curvature `k`:
/// `0` for the curvature below, `1` for the vertex's own, `2` for the one
/// above. The host stores `grad(v, k)` in a three-slot row per vertex and
/// fetches it through this mapping.
pub fn grad_index(v: usize, k: usize) -> (r: usize)
    requires
        v <= k + 1 <= v + 2,
        k < usize::MAX,
    ensures
        r == k + 1 - v,
        r < 3,
{
    k + 1 - v
}

/// The contributing curvature indices at `(a, b)`: exactly the interior
/// vertices at distance at most one from both `a` and `b`.
pub fn bend_terms(t: &StrandTopology, a: usize, b: usize) -> (r: Vec<usize>)
    requires
        t.wf(),
        t.spec_interior(a as int),
        t.spec_interior(b as int),
    ensures
        r@ == spec_bend_terms(*t, a as int, b as int),
{
    let hi_of = if a >= b {
        a
    } else {
        b
    };
    let lo_of = if a <= b {
        a
    } else {
        b
    };
    let lo = if hi_of >= 2 {
        hi_of - 1
    } else {
        1
    };
    let hi = if lo_of + 1 <= t.v_num - 2 {
        lo_of + 1
    } else {
        t.v_num - 2
    };
    let mut out: Vec<usize> = Vec::new();
    let mut k = lo;
    while k <= hi
        invariant
            lo == spec_term_lo(*t, a as int, b as int),
            hi == spec_term_hi(*t, a as int, b as int),
            hi < t.v_num <= crate::topology::MAX_VERTICES,
            lo <= k,
            k <= hi + 1 || k == lo,
            out@.len() == k - lo,
            forall|j: int| 0 <= j < out@.len() ==> #[trigger] out@[j] as int == lo + j,
        decreases hi + 1 - k,
    {
        out.push(k);
        k = k + 1;
    }
    proof {
        assert(out@ =~= spec_bend_terms(*t, a as int, b as int));
    }
    out
}

/// A curvature index is in the term sequence exactly when it contributes:
/// the sequence realises `spec_bend_term` and nothing else.
pub proof fn lemma_bend_terms_exact(t: StrandTopology, a: int, b: int)
    requires
        t.wf(),
        t.spec_interior(a),
        t.spec_interior(b),
    ensures
        forall|j: int|
            0 <= j < spec_bend_terms(t, a, b).len() ==> spec_bend_term(
                t,
                a,
                b,
                #[trigger] spec_bend_terms(t, a, b)[j] as int,
            ),
        forall|k: int|
            #[trigger] spec_bend_term(t, a, b, k) ==> spec_bend_terms(t, a, b).contains(
                k as usize,
            ),
{
    let lo = spec_term_lo(t, a, b);
    let hi = spec_term_hi(t, a, b);
    assert forall|k: int| #[trigger] spec_bend_term(t, a, b, k) implies spec_bend_terms(
        t,
        a,
        b,
    ).contains(k as usize) by {
        assert(lo <= k <= hi);
        assert(spec_bend_terms(t, a, b)[k - lo] == k as usize);
    }
}

/// The bend pattern is confined to the band and to interior vertices, and a
/// slot exists exactly where the term range is non-empty.
pub proof fn lemma_bend_slot_shape(t: StrandTopology, a: int, b: int)
    requires
        t.wf(),
    ensures
        spec_bend_slot(t, a, b) ==> t.spec_interior(a) && t.spec_interior(b) && -2 <= a - b <= 2,
        t.spec_interior(a) && t.spec_interior(b) && -2 <= a - b <= 2 ==> spec_bend_slot(t, a, b),
{
    if spec_bend_slot(t, a, b) {
        let k = choose|k: int| #[trigger] spec_bend_term(t, a, b, k);
        assert(t.spec_interior(a) && t.spec_interior(b) && -2 <= a - b <= 2);
    }
    if t.spec_interior(a) && t.spec_interior(b) && -2 <= a - b <= 2 {
        let k = spec_term_lo(t, a, b);
        assert(spec_bend_term(t, a, b, k));
    }
}

/// The bend pattern is symmetric: a block is planned at `(a, b)` exactly
/// when one is planned at `(b, a)`, and the two sum over the same curvature
/// indices, so they are built from pairwise transposed products.
pub proof fn lemma_bend_pattern_symmetric(t: StrandTopology, a: int, b: int)
    requires
        t.wf(),
    ensures
        spec_bend_slot(t, a, b) <==> spec_bend_slot(t, b, a),
        spec_bend_terms(t, a, b) == spec_bend_terms(t, b, a),
{
    if spec_bend_slot(t, a, b) {
        let k = choose|k: int| #[trigger] spec_bend_term(t, a, b, k);
        assert(spec_bend_term(t, b, a, k));
    }
    if spec_bend_slot(t, b, a) {
        let k = choose|k: int| #[trigger] spec_bend_term(t, b, a, k);
        assert(spec_bend_term(t, a, b, k));
    }
}

/// Builds the bend Hessian plan: every block of the band, row by row and
/// column by column, each with its exact term set.
pub fn bend_hessian_plan(t: &StrandTopology) -> (r: Vec<BendSlot>)
    requires
        t.wf(),
    ensures
        forall|j: int| 0 <= j < r@.len() ==> spec_bend_slot_ok(*t, #[trigger] r@[j]),
        forall|j: int|
            0 <= j < r@.len() ==> spec_bend_slot(*t, (#[trigger] r@[j]).row as int, r@[j].col as int),
        forall|j1: int, j2: int|
            0 <= j1 < j2 < r@.len() ==> spec_bend_lex_lt(#[trigger] r@[j1], #[trigger] r@[j2]),
        forall|a: int, b: int| spec_bend_slot(*t, a, b) ==> spec_places_bend(r@, a, b),
{
    let v_num = t.v_num;
    let mut out: Vec<BendSlot> = Vec::new();
    let mut a: usize = 1;
    while a < v_num - 1
        invariant
            t.wf(),
            v_num == t.v_num,
            1 <= a <= v_num - 1,
            forall|j: int| 0 <= j < out@.len() ==> spec_bend_slot_ok(*t, #[trigger] out@[j]),
            forall|j: int|
                0 <= j < out@.len() ==> spec_bend_slot(
                    *t,
                    (#[trigger] out@[j]).row as int,
                    out@[j].col as int,
                ),
            forall|j1: int, j2: int|
                0 <= j1 < j2 < out@.len() ==> spec_bend_lex_lt(
                    #[trigger] out@[j1],
                    #[trigger] out@[j2],
                ),
            forall|j: int| 0 <= j < out@.len() ==> (#[trigger] out@[j]).row < a,
            forall|x: int, y: int|
                spec_bend_slot(*t, x, y) && x < a ==> spec_places_bend(out@, x, y),
        decreases v_num - 1 - a,
    {
        let col_lo = if a >= 3 {
            a - 2
        } else {
            1
        };
        let col_hi = if a + 2 <= v_num - 2 {
            a + 2
        } else {
            v_num - 2
        };
        proof {
            assert forall|y: int| spec_bend_slot(*t, a as int, y) implies col_lo <= y <= col_hi by {
                let k = choose|k: int| #[trigger] spec_bend_term(*t, a as int, y, k);
            }
        }
        let mut b = col_lo;
        while b <= col_hi
            invariant
                t.wf(),
                v_num == t.v_num,
                1 <= a < v_num - 1,
                col_lo == if a >= 3 {
                    (a - 2) as int
                } else {
                    1int
                },
                col_hi == if a + 2 <= v_num - 2 {
                    (a + 2) as int
                } else {
                    (v_num - 2) as int
                },
                col_lo <= b,
                b <= col_hi + 1,
                forall|j: int| 0 <= j < out@.len() ==> spec_bend_slot_ok(*t, #[trigger] out@[j]),
                forall|j: int|
                    0 <= j < out@.len() ==> spec_bend_slot(
                        *t,
                        (#[trigger] out@[j]).row as int,
                        out@[j].col as int,
                    ),
                forall|j1: int, j2: int|
                    0 <= j1 < j2 < out@.len() ==> spec_bend_lex_lt(
                        #[trigger] out@[j1],
                        #[trigger] out@[j2],
                    ),
                forall|j: int|
                    0 <= j < out@.len() ==> (#[trigger] out@[j]).row < a || (out@[j].row == a
                        && out@[j].col < b),
                forall|x: int, y: int|
                    spec_bend_slot(*t, x, y) && x < a ==> spec_places_bend(out@, x, y),
                forall|y: int|
                    spec_bend_slot(*t, a as int, y) && y < b ==> spec_places_bend(
                        out@,
                        a as int,
                        y,
                    ),
            decreases col_hi + 1 - b,
        {
            let terms = bend_terms(t, a, b);
            proof {
                let lo = spec_term_lo(*t, a as int, b as int);
                let hi = spec_term_hi(*t, a as int, b as int);
                assert(lo <= hi);
                assert(spec_bend_term(*t, a as int, b as int, lo));
            }
            let ghost old_out = out@;
            out.push(BendSlot { row: a, col: b, terms });
            proof {
                assert(out@[out@.len() - 1].row == a && out@[out@.len() - 1].col == b);
                assert forall|x: int, y: int|
                    spec_bend_slot(*t, x, y) && x < a implies spec_places_bend(out@, x, y) by {
                    assert(spec_places_bend(old_out, x, y));
                    let j = choose|j: int|
                        0 <= j < old_out.len() && (#[trigger] old_out[j]).row == x
                            && old_out[j].col == y;
                    assert(out@[j].row == x && out@[j].col == y);
                }
                assert forall|y: int|
                    spec_bend_slot(*t, a as int, y) && y < b + 1 implies spec_places_bend(
                    out@,
                    a as int,
                    y,
                ) by {
                    if y < b {
                        assert(spec_places_bend(old_out, a as int, y));
                        let j = choose|j: int|
                            0 <= j < old_out.len() && (#[trigger] old_out[j]).row == a as int
                                && old_out[j].col == y;
                        assert(out@[j].row == a as int && out@[j].col == y);
                    } else {
                        assert(out@[out@.len() - 1].row == a as int && out@[out@.len() - 1].col
                            == y);
                    }
                }
            }
            b = b + 1;
        }
        proof {
            assert forall|x: int, y: int|
                spec_bend_slot(*t, x, y) && x < a + 1 implies spec_places_bend(out@, x, y) by {
                if x == a as int {
                    assert(col_lo <= y <= col_hi);
                }
            }
        }
        a = a + 1;
    }
    proof {
        assert forall|x: int, y: int| spec_bend_slot(*t, x, y) implies spec_places_bend(
            out@,
            x,
            y,
        ) by {
            let k = choose|k: int| #[trigger] spec_bend_term(*t, x, y, k);
            assert(x < a);
        }
    }
    out
}

/// Builds the bend force plan: one entry per interior vertex, in order,
/// each with the curvature indices that contribute to its force.
pub fn bend_force_plan(t: &StrandTopology) -> (r: Vec<BendForce>)
    requires
        t.wf(),
    ensures
        r@.len() == t.v_num - 2,
        forall|j: int|
            0 <= j < r@.len() ==> (#[trigger] r@[j]).vertex == j + 1 && r@[j].terms@
                == spec_bend_terms(*t, j + 1, j + 1),
{
    let v_num = t.v_num;
    let mut out: Vec<BendForce> = Vec::new();
    let mut i: usize = 1;
    while i < v_num - 1
        invariant
            t.wf(),
            v_num == t.v_num,
            1 <= i <= v_num - 1,
            out@.len() == i - 1,
            forall|j: int|
                0 <= j < out@.len() ==> (#[trigger] out@[j]).vertex == j + 1 && out@[j].terms@
                    == spec_bend_terms(*t, j + 1, j + 1),
        decreases v_num - 1 - i,
    {
        let terms = bend_terms(t, i, i);
        out.push(BendForce { vertex: i, terms });
        i = i + 1;
    }
    out
}

} // verus!
