//! Placement plan for the stretch term.
//!
//! Per edge `i` the stretch force is `f = pi * r^2 * E * (len_i / rest_i - 1) * t_i`.
//! `+f` goes to vertex `i` only when that vertex is unpinned; `-f` goes to
//! vertex `i + 1` unconditionally. The Hessian block
//! `H = pi * r^2 * E / rest_i * (t_i t_i^T)` is accumulated positively at
//! `(i, i)` and `(i + 1, i + 1)` and negatively at `(i, i + 1)` and
//! `(i + 1, i)`, with the `(i, i)` contribution skipped when vertex `i` is
//! pinned (a pinned vertex is no unknown of the solve).
//!
//! The host evaluates `f` and `H` on its float state and applies them at
//! exactly the entries planned here.

use vstd::prelude::*;

use crate::topology::StrandTopology;

verus! {

/// One force application of the stretch term: add the edge's force (or its
/// negation) to the three rows of `vertex`.
#[derive(Clone, Copy, PartialEq, Eq, Structural, Debug)]
pub struct StretchForce {
    /// Edge whose force is applied.
    pub edge: usize,
    /// Vertex that receives it.
    pub vertex: usize,
    /// `true` for `+f`, `false` for `-f`.
    pub positive: bool,
}

/// One Hessian accumulation of the stretch term: add the edge's 3x3 block
/// (or its negation) at the block position `(row, col)`.
#[derive(Clone, Copy, PartialEq, Eq, Structural, Debug)]
pub struct StretchHess {
    /// Edge whose block is accumulated.
    pub edge: usize,
    /// Block row, in vertex indices.
    pub row: usize,
    /// Block column, in vertex indices.
    pub col: usize,
    /// `true` for `-H`, `false` for `+H`.
    pub negate: bool,
}

/// Force applications contributed by edge `i`.
pub open spec fn spec_stretch_forces_edge(t: StrandTopology, i: int) -> Seq<StretchForce> {
    let pull = seq![
        StretchForce { edge: i as usize, vertex: (i + 1) as usize, positive: false },
    ];
    if i > t.last_pin {
        seq![StretchForce { edge: i as usize, vertex: i as usize, positive: true }] + pull
    } else {
        pull
    }
}

/// Force applications of the edges `0 .. n`, in edge order.
pub open spec fn spec_stretch_forces_upto(t: StrandTopology, n: int) -> Seq<StretchForce>
    decreases n,
{
    if n <= 0 {
        Seq::empty()
    } else {
        spec_stretch_forces_upto(t, n - 1) + spec_stretch_forces_edge(t, n - 1)
    }
}

/// The full stretch force plan of one tick.
pub open spec fn spec_stretch_forces(t: StrandTopology) -> Seq<StretchForce> {
    spec_stretch_forces_upto(t, t.spec_l_num())
}

/// Hessian accumulations contributed by edge `i`.
pub open spec fn spec_stretch_hess_edge(t: StrandTopology, i: int) -> Seq<StretchHess> {
    let rest = seq![
        StretchHess { edge: i as usize, row: i as usize, col: (i + 1) as usize, negate: true },
        StretchHess { edge: i as usize, row: (i + 1) as usize, col: i as usize, negate: true },
        StretchHess {
            edge: i as usize,
            row: (i + 1) as usize,
            col: (i + 1) as usize,
            negate: false,
        },
    ];
    if i > t.last_pin {
        seq![StretchHess { edge: i as usize, row: i as usize, col: i as usize, negate: false }]
            + rest
    } else {
        rest
    }
}

/// Hessian accumulations of the edges `0 .. n`, in edge order.
pub open spec fn spec_stretch_hess_upto(t: StrandTopology, n: int) -> Seq<StretchHess>
    decreases n,
{
    if n <= 0 {
        Seq::empty()
    } else {
        spec_stretch_hess_upto(t, n - 1) + spec_stretch_hess_edge(t, n - 1)
    }
}

/// The full stretch Hessian plan of one tick.
pub open spec fn spec_stretch_hessian(t: StrandTopology) -> Seq<StretchHess> {
    spec_stretch_hess_upto(t, t.spec_l_num())
}

/// Edge `i` accumulates a Hessian block at `(a, b)`.
pub open spec fn spec_stretch_edge_places(t: StrandTopology, i: int, a: int, b: int) -> bool {
    (a == i && b == i && i > t.last_pin) || (a == i && b == i + 1) || (a == i + 1 && b == i) || (a
        == i + 1 && b == i + 1)
}

/// Some edge accumulates a stretch Hessian block at `(a, b)`.
pub open spec fn spec_stretch_slot(t: StrandTopology, a: int, b: int) -> bool {
    exists|i: int| 0 <= i < t.spec_l_num() && #[trigger] spec_stretch_edge_places(t, i, a, b)
}

/// A plan sequence places a block at `(a, b)`.
pub open spec fn spec_places_stretch(s: Seq<StretchHess>, a: int, b: int) -> bool {
    exists|j: int| 0 <= j < s.len() && (#[trigger] s[j]).row == a && s[j].col == b
}

/// Builds the stretch force plan: for each edge in order, `+f` to the lower
/// vertex when it is unpinned, then `-f` to the upper vertex.
pub fn stretch_force_plan(t: &StrandTopology) -> (r: Vec<StretchForce>)
    requires
        t.wf(),
    ensures
        r@ == spec_stretch_forces(*t),
{
    let l_num = t.l_num();
    let mut out: Vec<StretchForce> = Vec::new();
    let mut i: usize = 0;
    while i < l_num
        invariant
            t.wf(),
            l_num == t.spec_l_num(),
            i <= l_num,
            out@ == spec_stretch_forces_upto(*t, i as int),
        decreases l_num - i,
    {
        if i > t.last_pin {
            out.push(StretchForce { edge: i, vertex: i, positive: true });
        }
        out.push(StretchForce { edge: i, vertex: i + 1, positive: false });
        proof {
            assert(out@ =~= spec_stretch_forces_upto(*t, i as int + 1));
        }
        i = i + 1;
    }
    out
}

/// Builds the stretch Hessian plan: for each edge in order, the diagonal
/// block of the lower vertex when it is unpinned, the two negated
/// off-diagonal blocks, and the diagonal block of the upper vertex.
pub fn stretch_hessian_plan(t: &StrandTopology) -> (r: Vec<StretchHess>)
    requires
        t.wf(),
    ensures
        r@ == spec_stretch_hessian(*t),
{
    let l_num = t.l_num();
    let mut out: Vec<StretchHess> = Vec::new();
    let mut i: usize = 0;
    while i < l_num
        invariant
            t.wf(),
            l_num == t.spec_l_num(),
            i <= l_num,
            out@ == spec_stretch_hess_upto(*t, i as int),
        decreases l_num - i,
    {
        if i > t.last_pin {
            out.push(StretchHess { edge: i, row: i, col: i, negate: false });
        }
        out.push(StretchHess { edge: i, row: i, col: i + 1, negate: true });
        out.push(StretchHess { edge: i, row: i + 1, col: i, negate: true });
        out.push(StretchHess { edge: i, row: i + 1, col: i + 1, negate: false });
        proof {
            assert(out@ =~= spec_stretch_hess_upto(*t, i as int + 1));
        }
        i = i + 1;
    }
    out
}

/// Shape of every stretch force entry: the edge exists, `+f` goes only to
/// the edge's own (unpinned) lower vertex, `-f` only to its upper vertex,
/// and every touched vertex exists. In particular a pinned vertex never
/// receives the `+f` side.
pub proof fn lemma_stretch_forces_shape(t: StrandTopology, j: int)
    requires
        t.wf(),
        0 <= j < spec_stretch_forces(t).len(),
    ensures
        spec_stretch_forces(t)[j].edge < t.spec_l_num(),
        spec_stretch_forces(t)[j].vertex < t.v_num,
        spec_stretch_forces(t)[j].positive ==> spec_stretch_forces(t)[j].vertex == spec_stretch_forces(
            t,
        )[j].edge && !t.spec_pinned(spec_stretch_forces(t)[j].vertex as int),
        !spec_stretch_forces(t)[j].positive ==> spec_stretch_forces(t)[j].vertex == spec_stretch_forces(
            t,
        )[j].edge + 1,
{
    lemma_stretch_forces_upto_shape(t, t.spec_l_num(), j);
}

proof fn lemma_stretch_forces_upto_shape(t: StrandTopology, n: int, j: int)
    requires
        t.wf(),
        0 <= n <= t.spec_l_num(),
        0 <= j < spec_stretch_forces_upto(t, n).len(),
    ensures
        spec_stretch_forces_upto(t, n)[j].edge < n,
        spec_stretch_forces_upto(t, n)[j].vertex < t.v_num,
        spec_stretch_forces_upto(t, n)[j].positive ==> spec_stretch_forces_upto(t, n)[j].vertex
            == spec_stretch_forces_upto(t, n)[j].edge && !t.spec_pinned(
            spec_stretch_forces_upto(t, n)[j].vertex as int,
        ),
        !spec_stretch_forces_upto(t, n)[j].positive ==> spec_stretch_forces_upto(t, n)[j].vertex
            == spec_stretch_forces_upto(t, n)[j].edge + 1,
    decreases n,
{
    let prev = spec_stretch_forces_upto(t, n - 1);
    if j < prev.len() {
        lemma_stretch_forces_upto_shape(t, n - 1, j);
    }
}

/// Shape of every stretch Hessian entry: the edge exists, the block sits on
/// that edge's 2x2 vertex stencil, only the off-diagonal blocks are negated,
/// and the diagonal block of a pinned vertex is never planned.
pub proof fn lemma_stretch_hessian_shape(t: StrandTopology, j: int)
    requires
        t.wf(),
        0 <= j < spec_stretch_hessian(t).len(),
    ensures
        spec_stretch_hessian(t)[j].edge < t.spec_l_num(),
        spec_stretch_hessian(t)[j].row < t.v_num,
        spec_stretch_hessian(t)[j].col < t.v_num,
        spec_stretch_edge_places(
            t,
            spec_stretch_hessian(t)[j].edge as int,
            spec_stretch_hessian(t)[j].row as int,
            spec_stretch_hessian(t)[j].col as int,
        ),
        spec_stretch_hessian(t)[j].negate <==> spec_stretch_hessian(t)[j].row != spec_stretch_hessian(
            t,
        )[j].col,
        spec_stretch_hessian(t)[j].row == spec_stretch_hessian(t)[j].col ==> !t.spec_pinned(
            spec_stretch_hessian(t)[j].row as int,
        ) || spec_stretch_hessian(t)[j].row == spec_stretch_hessian(t)[j].edge + 1,
{
    lemma_stretch_hess_upto_shape(t, t.spec_l_num(), j);
}

proof fn lemma_stretch_hess_upto_shape(t: StrandTopology, n: int, j: int)
    requires
        t.wf(),
        0 <= n <= t.spec_l_num(),
        0 <= j < spec_stretch_hess_upto(t, n).len(),
    ensures
        spec_stretch_hess_upto(t, n)[j].edge < n,
        spec_stretch_hess_upto(t, n)[j].row < t.v_num,
        spec_stretch_hess_upto(t, n)[j].col < t.v_num,
        spec_stretch_edge_places(
            t,
            spec_stretch_hess_upto(t, n)[j].edge as int,
            spec_stretch_hess_upto(t, n)[j].row as int,
            spec_stretch_hess_upto(t, n)[j].col as int,
        ),
        spec_stretch_hess_upto(t, n)[j].negate <==> spec_stretch_hess_upto(t, n)[j].row
            != spec_stretch_hess_upto(t, n)[j].col,
        spec_stretch_hess_upto(t, n)[j].row == spec_stretch_hess_upto(t, n)[j].col ==> !t.spec_pinned(
            spec_stretch_hess_upto(t, n)[j].row as int,
        ) || spec_stretch_hess_upto(t, n)[j].row == spec_stretch_hess_upto(t, n)[j].edge + 1,
    decreases n,
{
    let prev = spec_stretch_hess_upto(t, n - 1);
    if j < prev.len() {
        lemma_stretch_hess_upto_shape(t, n - 1, j);
    }
}

/// The stretch Hessian pattern is symmetric: the plan places a block at
/// `(a, b)` exactly when it places one at `(b, a)`. The paired blocks are
/// built from the same edge, so filtering whole blocks cannot break the
/// pairing.
pub proof fn lemma_stretch_pattern_symmetric(t: StrandTopology, a: int, b: int)
    requires
        t.wf(),
    ensures
        spec_places_stretch(spec_stretch_hessian(t), a, b) <==> spec_places_stretch(
            spec_stretch_hessian(t),
            b,
            a,
        ),
{
    lemma_stretch_places_iff_slot(t, a, b);
    lemma_stretch_places_iff_slot(t, b, a);
    if spec_stretch_slot(t, a, b) {
        let i = choose|i: int|
            0 <= i < t.spec_l_num() && #[trigger] spec_stretch_edge_places(t, i, a, b);
        assert(spec_stretch_edge_places(t, i, b, a));
    }
    if spec_stretch_slot(t, b, a) {
        let i = choose|i: int|
            0 <= i < t.spec_l_num() && #[trigger] spec_stretch_edge_places(t, i, b, a);
        assert(spec_stretch_edge_places(t, i, a, b));
    }
}

/// The plan sequence places a block at `(a, b)` exactly when some edge does.
pub proof fn lemma_stretch_places_iff_slot(t: StrandTopology, a: int, b: int)
    requires
        t.wf(),
    ensures
        spec_places_stretch(spec_stretch_hessian(t), a, b) <==> spec_stretch_slot(t, a, b),
{
    lemma_stretch_places_upto(t, t.spec_l_num(), a, b);
}

proof fn lemma_stretch_places_upto(t: StrandTopology, n: int, a: int, b: int)
    requires
        t.wf(),
        0 <= n <= t.spec_l_num(),
    ensures
        spec_places_stretch(spec_stretch_hess_upto(t, n), a, b) <==> exists|i: int|
            0 <= i < n && #[trigger] spec_stretch_edge_places(t, i, a, b),
    decreases n,
{
    if n <= 0 {
    } else {
        lemma_stretch_places_upto(t, n - 1, a, b);
        let prev = spec_stretch_hess_upto(t, n - 1);
        let e = spec_stretch_hess_edge(t, n - 1);
        let whole = spec_stretch_hess_upto(t, n);
        assert(whole == prev + e);
        // membership in the concatenation splits at prev.len()
        if spec_places_stretch(whole, a, b) {
            let j = choose|j: int|
                0 <= j < whole.len() && (#[trigger] whole[j]).row == a && whole[j].col == b;
            if j < prev.len() {
                assert(prev[j] == whole[j]);
                assert(spec_places_stretch(prev, a, b));
            } else {
                assert(e[j - prev.len()] == whole[j]);
                assert(spec_stretch_edge_places(t, n - 1, a, b));
            }
        }
        if spec_places_stretch(prev, a, b) {
            let j = choose|j: int|
                0 <= j < prev.len() && (#[trigger] prev[j]).row == a && prev[j].col == b;
            assert(whole[j] == prev[j]);
            assert(spec_places_stretch(whole, a, b));
        }
        if spec_stretch_edge_places(t, n - 1, a, b) {
            let i = n - 1;
            if a == i + 1 && b == i + 1 {
                let j = prev.len() + e.len() - 1 as int;
                assert(whole[j] == e[e.len() - 1]);
                assert(spec_places_stretch(whole, a, b));
            } else if a == i && b == i && i > t.last_pin {
                let j = prev.len() as int;
                assert(whole[j] == e[0]);
                assert(spec_places_stretch(whole, a, b));
            } else if a == i && b == i + 1 {
                let j = prev.len() + e.len() - 3 as int;
                assert(whole[j] == e[e.len() - 3]);
                assert(spec_places_stretch(whole, a, b));
            } else {
                let j = prev.len() + e.len() - 2 as int;
                assert(whole[j] == e[e.len() - 2]);
                assert(spec_places_stretch(whole, a, b));
            }
        }
    }
}

} // verus!
