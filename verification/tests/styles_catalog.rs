//! The style presets: background, layer order, filenames and colors.

use natural_earth_basemap::features::GeoFeature;
use natural_earth_basemap::styles::{
    classic_style, grey_style, grey_style_110, grey_style_transparent, ocean_style,
};

#[test]
fn classic_style_layers() {
    let s = classic_style();
    assert_eq!(s.background.layer_style.stroke.as_str(), "black");
    assert_eq!(s.background.layer_style.fill.as_str(), "lightseagreen");
    assert_eq!(s.background.layer_style.fill_opacity.as_str(), "0.5");
    assert_eq!(s.background.filename.as_str(), "ne_10m_ocean.shp");
    assert_eq!(s.layers.len(), 6);
    assert_eq!(s.layers[0].filename.as_str(), "ne_10m_land.shp");
    assert_eq!(s.layers[0].layer_style.fill.as_str(), "wheat");
    assert_eq!(s.layers[1].filename.as_str(), "ne_10m_lakes.shp");
    assert_eq!(s.layers[1].layer_style.fill.as_str(), "skyblue");
    assert_eq!(s.layers[2].filename.as_str(), "ne_10m_reefs.shp");
    assert_eq!(s.layers[2].layer_style.fill.as_str(), "silver");
    assert_eq!(s.layers[3].filename.as_str(), "ne_10m_antarctic_ice_shelves_polys.shp");
    assert_eq!(s.layers[3].layer_style.fill.as_str(), "lightcyan");
    assert_eq!(s.layers[4].filename.as_str(), "ne_10m_glaciated_areas.shp");
    assert_eq!(s.layers[4].layer_style.fill.as_str(), "aliceblue");
    assert_eq!(s.layers[5].filename.as_str(), "ne_10m_rivers_lake_centerlines.shp");
    assert_eq!(s.layers[5].layer_style.stroke.as_str(), "skyblue");
    assert_eq!(s.layers[5].layer_style.fill.as_str(), "none");
}

#[test]
fn ocean_style_bathymetry_ramp() {
    let s = ocean_style();
    assert_eq!(s.background.layer_style.fill.as_str(), "#023858");
    assert_eq!(s.background.filename.as_str(), "ne_10m_bathymetry_A_10000.shp");
    assert_eq!(s.layers.len(), 17);
    assert_eq!(s.layers[0].filename.as_str(), "ne_10m_bathymetry_L_0.shp");
    assert_eq!(s.layers[0].layer_style.fill.as_str(), "#fff7fb");
    assert_eq!(s.layers[1].layer_style.fill.as_str(), "#ece7f2");
    assert_eq!(s.layers[2].layer_style.fill.as_str(), "#d0d1e6");
    assert_eq!(s.layers[3].layer_style.fill.as_str(), "#a6bddb");
    assert_eq!(s.layers[4].layer_style.fill.as_str(), "#74a9cf");
    assert_eq!(s.layers[5].layer_style.fill.as_str(), "#3690c0");
    assert_eq!(s.layers[6].layer_style.fill.as_str(), "#0570b0");
    assert_eq!(s.layers[7].layer_style.fill.as_str(), "#045a8d");
    assert_eq!(s.layers[8].layer_style.fill.as_str(), "#023858");
    assert_eq!(s.layers[9].layer_style.fill.as_str(), "#023858");
    assert_eq!(s.layers[10].layer_style.fill.as_str(), "#023858");
    assert_eq!(s.layers[10].filename.as_str(), "ne_10m_bathymetry_B_9000.shp");
    assert_eq!(s.layers[11].layer_style.fill.as_str(), "dimgray");
    assert_eq!(s.layers[11].filename.as_str(), "ne_10m_land.shp");
    assert_eq!(s.layers[16].filename.as_str(), "ne_10m_rivers_lake_centerlines.shp");
}

#[test]
fn grey_styles() {
    let s = grey_style();
    assert_eq!(s.background.layer_style.fill_opacity.as_str(), "0");
    assert_eq!(s.layers.len(), 1);
    assert_eq!(s.layers[0].layer_style.stroke.as_str(), "white");
    assert_eq!(s.layers[0].layer_style.fill.as_str(), "black");

    let t = grey_style_transparent();
    assert_eq!(t.background.filename.as_str(), "ne_10m_ocean.shp");
    assert_eq!(t.layers.len(), 1);

    let g = grey_style_110();
    assert_eq!(g.background.filename.as_str(), "ne_110m_ocean.shp");
    assert_eq!(g.background.layer_style.fill_opacity.as_str(), "0.5");
    assert_eq!(g.layers.len(), 1);
    assert_eq!(g.layers[0].filename.as_str(), "ne_110m_land.shp");
    assert_eq!(g.layers[0].layer_style.fill.as_str(), "dimgray");
}

#[test]
fn feature_paths() {
    assert_eq!(
        GeoFeature::Land.shapefile_path().as_str(),
        "data/basemap/10m_physical/ne_10m_land.shp"
    );
    assert_eq!(
        GeoFeature::Reefs.shapefile_path().as_str(),
        "data/basemap/10m_physical/ne_10m_reefs.shp"
    );
}
