//! Core of a discrete-elastic-rod (DER) hair simulation.
//!
//! A strand is a polyline of vertices joined by edges; each edge carries a
//! reference frame and a twist angle, and each interior vertex a discrete
//! material curvature. Per tick the simulation transports the frames,
//! derives curvatures, assembles stretch/bend/gravity/contact forces with a
//! banded Hessian, solves an implicit linear system and integrates the
//! unpinned vertices.
//!
//! All of that arithmetic runs on floating-point vectors and therefore lives
//! with the host. What this crate verifies is the discrete skeleton the
//! numbers flow through: strand topology and its validation, the layout of
//! the degrees of freedom, the exact placement plan for every force and
//! Hessian contribution of a tick (with the pin and boundary guards), the
//! rest-curvature capture rule, and the scheduler state machine that decides
//! when a tick runs. A host executes the plan entry by entry on its float
//! state; every index it touches and every guard it honours is proved here.

pub mod bend;
pub mod layout;
pub mod markers;
pub mod scheduler;
pub mod step;
pub mod stretch;
pub mod topology;
