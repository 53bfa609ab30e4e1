//! Marker types for the host's scene entities.
//!
//! The host tags the entities it spawns with these zero-sized markers so
//! its queries can find the hair instancing data, the head transform and
//! the status text again. They carry no state of their own.

use vstd::prelude::*;

verus! {

/// Tags the entity that carries the per-edge hair instancing data.
pub struct HairsMarker;

/// Tags the entity that carries the head mesh and transform.
pub struct HeadMarker;

/// Tags the text entity that displays iteration count and tick time.
pub struct PhysicDisplayText;

} // verus!
