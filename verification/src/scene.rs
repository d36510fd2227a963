use vstd::prelude::*;

verus! {

/// Component that marks an entity as part of the named map.
#[derive(Clone, Debug, PartialEq, Eq)]
pub struct MapMarker {
    pub name: String,
}

/// The system that redraws the map. It is to run on a redraw event of the
/// map only.
#[derive(Clone, Copy, Debug, PartialEq, Eq, Structural)]
pub struct MapSystem;

} // verus!
