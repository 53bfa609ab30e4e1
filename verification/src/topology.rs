//! Strand topology: vertex/edge counts and the pin boundary condition.
//!
//! A strand is a polyline of `v_num` vertices and `v_num - 1` edges. The
//! vertices `0..=last_pin` are kinematically driven by the head transform and
//! never integrate from forces; the remainder are unknowns of the implicit
//! solve. A malformed topology is rejected here, before any tick is planned.

use vstd::prelude::*;

verus! {

/// Largest vertex count a strand may have. It keeps every derived row index
/// (the system dimension is `4 * v_num - 1`) comfortably inside `usize`
/// arithmetic on every target.
pub const MAX_VERTICES: usize = 0x1000_0000;

/// Why a simulation entry point refuses or aborts a strand's tick.
#[derive(Clone, Copy, PartialEq, Eq, Structural, Debug)]
pub enum SimError {
    /// The strand is malformed: fewer than two vertices, an out-of-range
    /// pin, or a vertex count beyond [`MAX_VERTICES`]. Rejected on entry,
    /// before any work is attempted.
    InvalidTopology,
    /// A frame or curvature computation met a zero-length tangent or a
    /// zero-norm cross product. Recovered locally by the fallback axis of
    /// the frame transport; never surfaced by a planner.
    DegenerateGeometry,
    /// A Hessian block held a non-finite entry. The block is dropped and the
    /// tick continues; never surfaced by a planner.
    NonFiniteContribution,
    /// The implicit solve could not factor the assembled matrix. Fatal for
    /// the strand's tick: the host must report it, not skip the update.
    SingularSystem,
}

/// The discrete shape of one strand: its vertex count and the index of the
/// last pinned vertex.
#[derive(Clone, Copy, PartialEq, Eq, Structural, Debug)]
pub struct StrandTopology {
    /// Number of vertices; the strand has `v_num - 1` edges.
    pub v_num: usize,
    /// Highest vertex index that is kinematically fixed to the head.
    pub last_pin: usize,
}

impl StrandTopology {
    /// A topology is well formed when it has at least one edge, stays below
    /// the machine bound, and pins only vertices that exist.
    pub open spec fn wf(self) -> bool {
        2 <= self.v_num <= MAX_VERTICES && self.last_pin < self.v_num
    }

    /// Number of edges.
    pub open spec fn spec_l_num(self) -> int {
        self.v_num - 1
    }

    /// Dimension of the implicit system: three translational rows per vertex
    /// and one reserved twist row per edge.
    pub open spec fn spec_sys_dim(self) -> int {
        4 * self.v_num - 1
    }

    /// Vertex `k` is interior: it has an edge on both sides, so it carries a
    /// discrete curvature. Vertex `0` and the tip do not.
    pub open spec fn spec_interior(self, k: int) -> bool {
        1 <= k < self.v_num - 1
    }

    /// Vertex `i` is pinned: driven rigidly by the head, excluded from the
    /// force solve.
    pub open spec fn spec_pinned(self, i: int) -> bool {
        0 <= i <= self.last_pin
    }

    /// Vertex `i` takes its new velocity and position from the implicit
    /// solve.
    pub open spec fn spec_integrated(self, i: int) -> bool {
        self.last_pin < i < self.v_num
    }

    /// Validates a candidate topology. Returns the topology exactly when it
    /// is well formed, and `InvalidTopology` otherwise.
    pub fn new(v_num: usize, last_pin: usize) -> (r: Result<StrandTopology, SimError>)
        ensures
            r is Ok <==> (StrandTopology { v_num, last_pin }).wf(),
            r is Ok ==> r->Ok_0 == (StrandTopology { v_num, last_pin }),
            r is Err ==> r->Err_0 == SimError::InvalidTopology,
    {
        if 2 <= v_num && v_num <= MAX_VERTICES && last_pin < v_num {
            Ok(StrandTopology { v_num, last_pin })
        } else {
            Err(SimError::InvalidTopology)
        }
    }

    /// Number of edges.
    pub fn l_num(&self) -> (r: usize)
        requires
            self.wf(),
        ensures
            r == self.spec_l_num(),
    {
        self.v_num - 1
    }

    /// Dimension of the implicit system.
    pub fn sys_dim(&self) -> (r: usize)
        requires
            self.wf(),
        ensures
            r == self.spec_sys_dim(),
    {
        4 * self.v_num - 1
    }

    /// Whether vertex `k` carries a discrete curvature.
    pub fn is_interior(&self, k: usize) -> (r: bool)
        requires
            self.wf(),
        ensures
            r == self.spec_interior(k as int),
    {
        1 <= k && k < self.v_num - 1
    }

    /// Whether vertex `i` is pinned to the head.
    pub fn is_pinned(&self, i: usize) -> (r: bool)
        requires
            self.wf(),
        ensures
            r == self.spec_pinned(i as int),
    {
        i <= self.last_pin
    }
}

/// The lengths of a strand's per-vertex and per-edge arrays, as the host
/// holds them beside its float data.
#[derive(Clone, Copy, PartialEq, Eq, Structural, Debug)]
pub struct StrandArrays {
    /// Length of the per-vertex mass array.
    pub v_mass: usize,
    /// Length of the per-vertex position array.
    pub v_position: usize,
    /// Length of the per-vertex velocity array.
    pub v_velocity: usize,
    /// Length of the per-edge rest-length array.
    pub l_rest_length: usize,
    /// Length of the per-edge twist-angle array.
    pub l_twist: usize,
    /// Length of the per-edge angular-velocity array.
    pub l_angular: usize,
    /// Length of the per-edge inertia array.
    pub l_momentum: usize,
    /// Length of the per-edge reference-frame array.
    pub reference_frame: usize,
}

impl StrandArrays {
    /// Each array carries exactly one entry per vertex or per edge of the
    /// given topology.
    pub open spec fn spec_matches(self, t: StrandTopology) -> bool {
        self.v_mass == t.v_num && self.v_position == t.v_num && self.v_velocity == t.v_num
            && self.l_rest_length == t.spec_l_num() && self.l_twist == t.spec_l_num()
            && self.l_angular == t.spec_l_num() && self.l_momentum == t.spec_l_num()
            && self.reference_frame == t.spec_l_num()
    }

    /// Checks that the host's arrays agree with the topology: one entry per
    /// vertex in the vertex arrays, one per edge in the edge arrays. A tick
    /// over mismatched arrays would index out of bounds, so the host
    /// refuses it as malformed.
    pub fn matches(&self, t: &StrandTopology) -> (r: bool)
        requires
            t.wf(),
        ensures
            r == self.spec_matches(*t),
    {
        let l_num = t.l_num();
        self.v_mass == t.v_num && self.v_position == t.v_num && self.v_velocity == t.v_num
            && self.l_rest_length == l_num && self.l_twist == l_num && self.l_angular == l_num
            && self.l_momentum == l_num && self.reference_frame == l_num
    }
}

/// Every vertex of a well-formed strand is driven by exactly one of the two
/// regimes: rigidly by the head when pinned, or by the implicit solve when
/// not. No vertex is driven by both, none is left behind.
pub proof fn lemma_pin_partition(t: StrandTopology, i: int)
    requires
        t.wf(),
        0 <= i < t.v_num,
    ensures
        t.spec_pinned(i) <==> !t.spec_integrated(i),
{
}

} // verus!
