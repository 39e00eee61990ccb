//! Cartographic basemap pipeline: projection, visibility culling, geometry
//! assembly and styled path rendering for Natural Earth shapefile layers.

pub mod arith;
pub mod assemble;
pub mod compose;
pub mod decimal;
pub mod features;
pub mod frame;
pub mod geom;
pub mod project;
pub mod render;
pub mod styles;

use vstd::prelude::*;

verus! {

/// Fixed-point scale for geographic coordinates: one unit is a microdegree.
pub const MICRODEG: i64 = 1_000_000;

} // verus!
