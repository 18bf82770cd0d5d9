//! The shadow test: whether a light reaches a point on a surface.
use vstd::prelude::*;
use crate::trace::{Hit, traced};

verus! {

/// The point is lit unless the shadow ray meets an element strictly nearer
/// than the light itself.
pub open spec fn lit(shadow: Option<Hit>, light_distance: u32) -> bool {
    match shadow {
        None => true,
        Some(h) => h.distance >= light_distance,
    }
}

/// Whether a light at `light_distance` reaches the point from which the
/// shadow ray was traced, given the nearest hit of that ray.
pub fn is_lit(shadow: Option<Hit>, light_distance: u32) -> (r: bool)
    ensures
        r == lit(shadow, light_distance),
{
    match shadow {
        None => true,
        Some(h) => h.distance >= light_distance,
    }
}

/// An element that the shadow ray meets before it reaches the light leaves
/// the point in shadow, whatever else the ray meets.
pub proof fn occluder_casts_shadow(
    hits: Seq<Option<u32>>,
    k: int,
    light_distance: u32,
    shadow: Option<Hit>,
)
    requires
        0 <= k < hits.len(),
        hits[k] is Some,
        hits[k]->Some_0 < light_distance,
        traced(hits, shadow),
    ensures
        !lit(shadow, light_distance),
{
}

} // verus!
