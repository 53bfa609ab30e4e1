//! Row layout of the implicit system.
//!
//! The solve runs over `4 * v_num - 1` rows: three translational rows per
//! vertex, followed by one reserved twist row per edge. The mass matrix
//! diagonal, the velocity vector and the force vector all follow this
//! layout, so the host fills them through these functions.

use vstd::prelude::*;

use crate::topology::StrandTopology;

verus! {

/// First of the three translational rows of vertex `i`.
pub open spec fn spec_vertex_row(i: int) -> int {
    3 * i
}

/// Twist row reserved for edge `j`; it follows all vertex rows.
pub open spec fn spec_twist_row(t: StrandTopology, j: int) -> int {
    3 * t.v_num + j
}

/// First translational row of vertex `i`; the vertex owns rows
/// `3 * i .. 3 * i + 3`.
pub fn vertex_row(t: &StrandTopology, i: usize) -> (r: usize)
    requires
        t.wf(),
        i < t.v_num,
    ensures
        r == spec_vertex_row(i as int),
        r + 2 < t.spec_sys_dim(),
{
    3 * i
}

/// Twist row of edge `j`.
pub fn twist_row(t: &StrandTopology, j: usize) -> (r: usize)
    requires
        t.wf(),
        j < t.spec_l_num(),
    ensures
        r == spec_twist_row(*t, j as int),
        r < t.spec_sys_dim(),
{
    3 * t.v_num + j
}

/// Each row of the system belongs to exactly one owner: row `r` is the
/// `r % 3`-th translational row of vertex `r / 3` when `r < 3 * v_num`, and
/// the twist row of edge `r - 3 * v_num` otherwise. Vertex rows and twist
/// rows never collide.
pub proof fn lemma_row_ownership(t: StrandTopology, r: int)
    requires
        t.wf(),
        0 <= r < t.spec_sys_dim(),
    ensures
        r < 3 * t.v_num ==> {
            let i = r / 3;
            0 <= i < t.v_num && spec_vertex_row(i) <= r < spec_vertex_row(i) + 3
        },
        r >= 3 * t.v_num ==> {
            let j = r - 3 * t.v_num;
            0 <= j < t.spec_l_num() && r == spec_twist_row(t, j)
        },
        forall|i: int, j: int|
            0 <= i < t.v_num && 0 <= j < t.spec_l_num() ==> spec_vertex_row(i) + 2 < spec_twist_row(
                t,
                j,
            ),
{
    if r < 3 * t.v_num {
        let i = r / 3;
        assert(3 * i <= r < 3 * i + 3) by (nonlinear_arith)
            requires
                i == r / 3,
                0 <= r,
        ;
        assert(i < t.v_num) by (nonlinear_arith)
            requires
                3 * i <= r,
                r < 3 * t.v_num,
        ;
    }
}

} // verus!
