//! The per-tick plan of one strand.
//!
//! A tick runs transport, curvature, force and Hessian assembly, the
//! implicit solve and integration as one atomic unit. The numeric work is
//! the host's; everything the numbers are steered by is planned and proved
//! here: which entries are written, under which guards, and whether this
//! tick snapshots the rest curvature.
//!
//! The host executes a [`TickPlan`] as follows. It first drives the pinned
//! vertices rigidly from the head transform (`pinned_drive`), then updates
//! the reference frames and curvatures, snapshots `initial_kappa` when
//! `capture_rest_curvature` is set, accumulates the planned stretch and
//! bend entries together with gravity and head contact on the unpinned
//! vertices, solves the implicit system, and finally overwrites velocity
//! and position of exactly the vertices in `integration_targets`.

use vstd::prelude::*;

use crate::bend::{
    bend_force_plan, bend_hessian_plan, spec_bend_lex_lt, spec_bend_slot, spec_bend_slot_ok,
    spec_bend_terms, spec_places_bend, BendForce, BendSlot,
};
use crate::stretch::{
    lemma_stretch_forces_shape, lemma_stretch_pattern_symmetric, spec_places_stretch,
    spec_stretch_forces, spec_stretch_hessian, stretch_force_plan, stretch_hessian_plan,
    StretchForce, StretchHess,
};
use crate::topology::{SimError, StrandTopology};

verus! {

/// Everything one tick of one strand writes, and where.
pub struct TickPlan {
    /// Snapshot the material curvature into the rest curvature before
    /// forces are measured: set on the strand's first tick only.
    pub capture_rest_curvature: bool,
    /// Stretch force applications, per edge in order.
    pub stretch_forces: Vec<StretchForce>,
    /// Stretch Hessian accumulations, per edge in order.
    pub stretch_hessian: Vec<StretchHess>,
    /// Bend force applications, one per interior vertex in order.
    pub bend_forces: Vec<BendForce>,
    /// Bend Hessian accumulations, banded, in row-major order.
    pub bend_hessian: Vec<BendSlot>,
    /// Vertices that receive the gravity force: the unpinned ones.
    pub gravity_targets: Vec<usize>,
    /// Vertices tested against the head sphere: the unpinned ones.
    pub contact_targets: Vec<usize>,
    /// Vertices driven rigidly by the head transform: the pinned ones.
    pub pinned_drive: Vec<usize>,
    /// Vertices whose velocity and position the solve overwrites: the
    /// unpinned ones. Disjoint from `pinned_drive`.
    pub integration_targets: Vec<usize>,
}

/// Bookkeeping of one strand between ticks: its topology, which head
/// attachment its root follows, and whether the rest curvature has been
/// captured yet.
#[derive(Clone, Copy, PartialEq, Eq, Structural, Debug)]
pub struct StrandState {
    /// The strand's discrete shape.
    pub topology: StrandTopology,
    /// Index of the head attachment offset the root follows.
    pub attachment: usize,
    /// Whether a tick has already snapshot the rest curvature.
    pub kappa_captured: bool,
}

/// The next tick will snapshot the rest curvature.
pub open spec fn spec_captures_now(s: StrandState) -> bool {
    !s.kappa_captured
}

/// The strand bookkeeping after one tick.
pub open spec fn spec_after_tick(s: StrandState) -> StrandState {
    StrandState { kappa_captured: true, ..s }
}

/// The strand bookkeeping after `n` ticks.
pub open spec fn spec_after_ticks(s: StrandState, n: nat) -> StrandState
    decreases n,
{
    if n == 0 {
        s
    } else {
        spec_after_tick(spec_after_ticks(s, (n - 1) as nat))
    }
}

/// The unpinned vertices, in increasing order.
pub fn unpinned_vertices(t: &StrandTopology) -> (r: Vec<usize>)
    requires
        t.wf(),
    ensures
        r@.len() == t.v_num - t.last_pin - 1,
        forall|j: int| 0 <= j < r@.len() ==> #[trigger] r@[j] as int == t.last_pin + 1 + j,
        forall|j: int| 0 <= j < r@.len() ==> t.spec_integrated(#[trigger] r@[j] as int),
{
    let mut out: Vec<usize> = Vec::new();
    let mut i = t.last_pin + 1;
    while i < t.v_num
        invariant
            t.wf(),
            t.last_pin + 1 <= i <= t.v_num,
            out@.len() == i - t.last_pin - 1,
            forall|j: int| 0 <= j < out@.len() ==> #[trigger] out@[j] as int == t.last_pin + 1 + j,
        decreases t.v_num - i,
    {
        out.push(i);
        i = i + 1;
    }
    out
}

/// The pinned vertices, in increasing order: `0 ..= last_pin`.
pub fn pinned_vertices(t: &StrandTopology) -> (r: Vec<usize>)
    requires
        t.wf(),
    ensures
        r@.len() == t.last_pin + 1,
        forall|j: int| 0 <= j < r@.len() ==> #[trigger] r@[j] as int == j,
        forall|j: int| 0 <= j < r@.len() ==> t.spec_pinned(#[trigger] r@[j] as int),
{
    let mut out: Vec<usize> = Vec::new();
    let mut i: usize = 0;
    while i <= t.last_pin
        invariant
            t.wf(),
            i <= t.last_pin + 1,
            out@.len() == i,
            forall|j: int| 0 <= j < out@.len() ==> #[trigger] out@[j] as int == j,
        decreases t.last_pin + 1 - i,
    {
        out.push(i);
        i = i + 1;
    }
    out
}

impl StrandState {
    /// Admits a freshly created strand: validates its topology and starts
    /// it with the rest curvature not yet captured, so the first tick will
    /// snapshot whatever curvature the strand then has.
    pub fn seed(v_num: usize, last_pin: usize, attachment: usize) -> (r: Result<
        StrandState,
        SimError,
    >)
        ensures
            r is Ok <==> (StrandTopology { v_num, last_pin }).wf(),
            r is Ok ==> r->Ok_0 == (StrandState {
                topology: StrandTopology { v_num, last_pin },
                attachment,
                kappa_captured: false,
            }),
            r is Err ==> r->Err_0 == SimError::InvalidTopology,
    {
        match StrandTopology::new(v_num, last_pin) {
            Ok(topology) => Ok(StrandState { topology, attachment, kappa_captured: false }),
            Err(e) => Err(e),
        }
    }

    /// Plans one tick. The plan carries every write of the tick: the exact
    /// stretch and bend placements, the gravity, contact, pin-drive and
    /// integration target sets, and the one-shot rest-curvature capture.
    pub fn plan_tick(&mut self) -> (p: TickPlan)
        requires
            old(self).topology.wf(),
        ensures
            *final(self) == spec_after_tick(*old(self)),
            p.capture_rest_curvature == spec_captures_now(*old(self)),
            p.stretch_forces@ == spec_stretch_forces(old(self).topology),
            p.stretch_hessian@ == spec_stretch_hessian(old(self).topology),
            p.bend_forces@.len() == old(self).topology.v_num - 2,
            forall|j: int|
                0 <= j < p.bend_forces@.len() ==> (#[trigger] p.bend_forces@[j]).vertex == j + 1
                    && p.bend_forces@[j].terms@ == spec_bend_terms(old(self).topology, j + 1, j + 1),
            forall|j: int|
                0 <= j < p.bend_hessian@.len() ==> spec_bend_slot_ok(
                    old(self).topology,
                    #[trigger] p.bend_hessian@[j],
                ),
            forall|j: int|
                0 <= j < p.bend_hessian@.len() ==> spec_bend_slot(
                    old(self).topology,
                    (#[trigger] p.bend_hessian@[j]).row as int,
                    p.bend_hessian@[j].col as int,
                ),
            forall|j1: int, j2: int|
                0 <= j1 < j2 < p.bend_hessian@.len() ==> spec_bend_lex_lt(
                    #[trigger] p.bend_hessian@[j1],
                    #[trigger] p.bend_hessian@[j2],
                ),
            forall|a: int, b: int|
                spec_bend_slot(old(self).topology, a, b) ==> spec_places_bend(
                    p.bend_hessian@,
                    a,
                    b,
                ),
            p.gravity_targets@ == p.integration_targets@,
            p.contact_targets@ == p.integration_targets@,
            p.integration_targets@.len() == old(self).topology.v_num - old(
                self,
            ).topology.last_pin - 1,
            forall|j: int|
                0 <= j < p.integration_targets@.len() ==> #[trigger] p.integration_targets@[j] as int
                    == old(self).topology.last_pin + 1 + j,
            p.pinned_drive@.len() == old(self).topology.last_pin + 1,
            forall|j: int|
                0 <= j < p.pinned_drive@.len() ==> #[trigger] p.pinned_drive@[j] as int == j,
    {
        let t = self.topology;
        let capture = !self.kappa_captured;
        self.kappa_captured = true;
        let integration_targets = unpinned_vertices(&t);
        let gravity_targets = integration_targets.clone();
        let contact_targets = integration_targets.clone();
        proof {
            assert(gravity_targets@ =~= integration_targets@);
            assert(contact_targets@ =~= integration_targets@);
        }
        TickPlan {
            capture_rest_curvature: capture,
            stretch_forces: stretch_force_plan(&t),
            stretch_hessian: stretch_hessian_plan(&t),
            bend_forces: bend_force_plan(&t),
            bend_hessian: bend_hessian_plan(&t),
            gravity_targets,
            contact_targets,
            pinned_drive: pinned_vertices(&t),
            integration_targets,
        }
    }
}

/// The rest curvature is captured on exactly the first tick: a freshly
/// seeded strand captures on its next tick, and after any positive number
/// of ticks no later tick captures again.
pub proof fn lemma_capture_exactly_once(s: StrandState, n: nat)
    ensures
        s.kappa_captured == false ==> spec_captures_now(spec_after_ticks(s, 0)),
        n >= 1 ==> !spec_captures_now(spec_after_ticks(s, n)),
        spec_after_ticks(s, n).topology == s.topology,
        spec_after_ticks(s, n).attachment == s.attachment,
    decreases n,
{
    if n >= 1 {
        lemma_capture_exactly_once(s, (n - 1) as nat);
    }
}

/// Pinned vertices are never solver-driven: a pinned vertex is not an
/// integration target, and no stretch entry pushes the `+f` side into it.
/// Together with the plan's target sets (gravity, contact and integration
/// all range over the unpinned vertices only) this keeps the vertices
/// `0 ..= last_pin` exactly where the head transform puts them.
pub proof fn lemma_pinned_never_solver_driven(t: StrandTopology, i: int)
    requires
        t.wf(),
        t.spec_pinned(i),
    ensures
        !t.spec_integrated(i),
        forall|j: int|
            0 <= j < spec_stretch_forces(t).len() && (#[trigger] spec_stretch_forces(
                t,
            )[j]).positive ==> spec_stretch_forces(t)[j].vertex != i,
{
    assert forall|j: int|
        0 <= j < spec_stretch_forces(t).len() && (#[trigger] spec_stretch_forces(
            t,
        )[j]).positive implies spec_stretch_forces(t)[j].vertex != i by {
        lemma_stretch_forces_shape(t, j);
    }
}

/// The whole Hessian pattern of a tick is symmetric: both the stretch plan
/// and the bend plan place a block at `(a, b)` exactly when they place one
/// at `(b, a)`, and the paired bend blocks sum over the same curvature
/// indices. Non-finite blocks are dropped whole, so filtering cannot break
/// the pairing either.
pub proof fn lemma_tick_pattern_symmetric(t: StrandTopology, a: int, b: int)
    requires
        t.wf(),
    ensures
        spec_places_stretch(spec_stretch_hessian(t), a, b) <==> spec_places_stretch(
            spec_stretch_hessian(t),
            b,
            a,
        ),
        spec_bend_slot(t, a, b) <==> spec_bend_slot(t, b, a),
        spec_bend_terms(t, a, b) == spec_bend_terms(t, b, a),
{
    lemma_stretch_pattern_symmetric(t, a, b);
    crate::bend::lemma_bend_pattern_symmetric(t, a, b);
}

} // verus!
