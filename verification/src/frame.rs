//! The map frame: the target raster's pixel extent and the geographic
//! bounding box it covers.

use vstd::prelude::*;
use crate::geom::GEO_MAX;

verus! {

/// Pixel extent cap on a frame side, a machine limit so that projected
/// coordinates stay far inside `i64`.
pub const PIX_MAX: i64 = 1_000_000;

/// A map frame: the information needed to draw one map. Immutable once
/// constructed; owned by the caller for the duration of one render.
#[derive(Clone, Copy, PartialEq, Eq, Structural)]
pub struct MapFrame {
    /// Number of rows in the raster in pixels.
    pub rows: i64,
    /// Number of columns in the raster in pixels.
    pub cols: i64,
    /// The minimum longitude of the raster, in microdegrees.
    pub lon_min: i64,
    /// The maximum longitude of the raster, in microdegrees.
    pub lon_max: i64,
    /// The minimum latitude of the raster, in microdegrees.
    pub lat_min: i64,
    /// The maximum latitude of the raster, in microdegrees.
    pub lat_max: i64,
}

impl MapFrame {
    /// Frame validity: a positive pixel extent within the machine cap and a
    /// non-degenerate geographic bounding box within the accepted range.
    pub open spec fn wf(self) -> bool {
        &&& 0 < self.rows <= PIX_MAX
        &&& 0 < self.cols <= PIX_MAX
        &&& -GEO_MAX <= self.lon_min < self.lon_max <= GEO_MAX
        &&& -GEO_MAX <= self.lat_min < self.lat_max <= GEO_MAX
    }

    /// Construct a frame, rejecting invalid dimensions or a degenerate or
    /// out-of-range bounding box.
    pub fn new(rows: i64, cols: i64, lon_min: i64, lon_max: i64, lat_min: i64, lat_max: i64) -> (r:
        Option<MapFrame>)
        ensures
            r is Some <==> (MapFrame { rows, cols, lon_min, lon_max, lat_min, lat_max }).wf(),
            r is Some ==> r->0 == (MapFrame { rows, cols, lon_min, lon_max, lat_min, lat_max }),
    {
        if 0 < rows && rows <= PIX_MAX && 0 < cols && cols <= PIX_MAX && -GEO_MAX <= lon_min
            && lon_min < lon_max && lon_max <= GEO_MAX && -GEO_MAX <= lat_min && lat_min < lat_max
            && lat_max <= GEO_MAX {
            Some(MapFrame { rows, cols, lon_min, lon_max, lat_min, lat_max })
        } else {
            None
        }
    }
}

} // verus!
