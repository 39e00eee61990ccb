//! Named Natural Earth features and the data-directory convention that maps
//! each one to its shapefile path.

use vstd::prelude::*;
use vstd::string::StringExecFns;

verus! {

/// A Natural Earth feature with a known shapefile in the data directory.
pub enum GeoFeature {
    /// The ten-meter-resolution land polygons.
    Land,
    /// The ten-meter-resolution reef polygons.
    Reefs,
}

impl GeoFeature {
    /// The shapefile path for this feature under the fixed data-directory
    /// convention.
    pub fn shapefile_path(&self) -> (p: String)
        ensures
            self is Land ==> p@ == "data/basemap/10m_physical/ne_10m_land.shp"@,
            self is Reefs ==> p@ == "data/basemap/10m_physical/ne_10m_reefs.shp"@,
    {
        match self {
            GeoFeature::Land => String::from_str("data/basemap/10m_physical/ne_10m_land.shp"),
            GeoFeature::Reefs => String::from_str("data/basemap/10m_physical/ne_10m_reefs.shp"),
        }
    }
}

} // verus!
