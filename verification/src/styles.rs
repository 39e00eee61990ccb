//! Map styles: the visual description of each layer and the named style
//! presets. A style is pure configuration data — a background layer and an
//! ordered list of layers, later layers drawing over earlier ones.

use vstd::prelude::*;
use vstd::string::StringExecFns;

verus! {

/// The style of a layer, defining its visual appearance. All values are the
/// attribute strings written into the output document.
pub struct LayerStyle {
    /// The stroke (outline) color of the layer (e.g. "black", "#000000").
    pub stroke: String,
    /// The fill color of the layer (e.g. "lightseagreen", "#20B2AA").
    pub fill: String,
    /// The fill opacity of the layer, "0" to "1.0".
    pub fill_opacity: String,
    /// The stroke width of the layer in pixels (e.g. "1").
    pub stroke_width: String,
}

/// A layer in the map, combining a style with its source file.
pub struct Layer {
    /// The visual style of this layer.
    pub layer_style: LayerStyle,
    /// The filename of the shapefile containing this layer's data
    /// (e.g. "ne_10m_land.shp").
    pub filename: String,
}

/// A complete map style, defining the background and all layers. Layer order
/// is significant: later layers draw over earlier ones.
pub struct Style {
    /// The background layer of the map (typically ocean).
    pub background: Layer,
    /// The ordered list of layers to be drawn on top of the background.
    pub layers: Vec<Layer>,
}

/// A layer holds exactly the given attribute strings and source filename.
pub open spec fn layer_spec(
    l: Layer,
    stroke: Seq<char>,
    fill: Seq<char>,
    fill_opacity: Seq<char>,
    stroke_width: Seq<char>,
    filename: Seq<char>,
) -> bool {
    &&& l.layer_style.stroke@ == stroke
    &&& l.layer_style.fill@ == fill
    &&& l.layer_style.fill_opacity@ == fill_opacity
    &&& l.layer_style.stroke_width@ == stroke_width
    &&& l.filename@ == filename
}

/// Build one layer from its attribute strings and source filename.
fn layer(stroke: &str, fill: &str, fill_opacity: &str, stroke_width: &str, filename: &str) -> (l:
    Layer)
    ensures
        layer_spec(l, stroke@, fill@, fill_opacity@, stroke_width@, filename@),
{
    Layer {
        layer_style: LayerStyle {
            stroke: String::from_str(stroke),
            fill: String::from_str(fill),
            fill_opacity: String::from_str(fill_opacity),
            stroke_width: String::from_str(stroke_width),
        },
        filename: String::from_str(filename),
    }
}

/// Returns a classic map style with a light blue ocean and beige land:
/// light seagreen ocean, wheat-colored land, sky blue lakes, silver reefs,
/// light cyan ice shelves, alice blue glaciated areas and sky blue rivers.
pub fn classic_style() -> (s: Style)
    ensures
        layer_spec(s.background, "black"@, "lightseagreen"@, "0.5"@, "1"@, "ne_10m_ocean.shp"@),
        s.layers@.len() == 6,
        layer_spec(s.layers@[0], "none"@, "wheat"@, "1.0"@, "0"@, "ne_10m_land.shp"@),
        layer_spec(s.layers@[1], "none"@, "skyblue"@, "1.0"@, "0"@, "ne_10m_lakes.shp"@),
        layer_spec(s.layers@[2], "none"@, "silver"@, "1.0"@, "0"@, "ne_10m_reefs.shp"@),
        layer_spec(
            s.layers@[3],
            "none"@,
            "lightcyan"@,
            "1.0"@,
            "0"@,
            "ne_10m_antarctic_ice_shelves_polys.shp"@,
        ),
        layer_spec(
            s.layers@[4],
            "none"@,
            "aliceblue"@,
            "1.0"@,
            "0"@,
            "ne_10m_glaciated_areas.shp"@,
        ),
        layer_spec(
            s.layers@[5],
            "skyblue"@,
            "none"@,
            "1.0"@,
            "1"@,
            "ne_10m_rivers_lake_centerlines.shp"@,
        ),
{
    let background = layer("black", "lightseagreen", "0.5", "1", "ne_10m_ocean.shp");
    let mut layers: Vec<Layer> = Vec::new();
    layers.push(layer("none", "wheat", "1.0", "0", "ne_10m_land.shp"));
    layers.push(layer("none", "skyblue", "1.0", "0", "ne_10m_lakes.shp"));
    layers.push(layer("none", "silver", "1.0", "0", "ne_10m_reefs.shp"));
    layers.push(layer("none", "lightcyan", "1.0", "0", "ne_10m_antarctic_ice_shelves_polys.shp"));
    layers.push(layer("none", "aliceblue", "1.0", "0", "ne_10m_glaciated_areas.shp"));
    layers.push(layer("skyblue", "none", "1.0", "1", "ne_10m_rivers_lake_centerlines.shp"));
    Style { background, layers }
}

/// Returns an ocean-focused style that emphasizes bathymetry: a color ramp
/// from the lightest blue for shallow water down to the darkest blue at ten
/// thousand meters, with land features in muted colors on top.
pub fn ocean_style() -> (s: Style)
    ensures
        layer_spec(s.background, "none"@, "#023858"@, "1.0"@, "1"@, "ne_10m_bathymetry_A_10000.shp"@),
        s.layers@.len() == 17,
        layer_spec(s.layers@[0], "none"@, "#fff7fb"@, "1.0"@, "1"@, "ne_10m_bathymetry_L_0.shp"@),
        layer_spec(s.layers@[1], "none"@, "#ece7f2"@, "1.0"@, "1"@, "ne_10m_bathymetry_K_200.shp"@),
        layer_spec(
            s.layers@[2],
            "none"@,
            "#d0d1e6"@,
            "1.0"@,
            "1"@,
            "ne_10m_bathymetry_J_1000.shp"@,
        ),
        layer_spec(
            s.layers@[3],
            "none"@,
            "#a6bddb"@,
            "1.0"@,
            "1"@,
            "ne_10m_bathymetry_I_2000.shp"@,
        ),
        layer_spec(
            s.layers@[4],
            "none"@,
            "#74a9cf"@,
            "1.0"@,
            "0"@,
            "ne_10m_bathymetry_H_3000.shp"@,
        ),
        layer_spec(
            s.layers@[5],
            "none"@,
            "#3690c0"@,
            "1.0"@,
            "1"@,
            "ne_10m_bathymetry_G_4000.shp"@,
        ),
        layer_spec(
            s.layers@[6],
            "none"@,
            "#0570b0"@,
            "1.0"@,
            "1"@,
            "ne_10m_bathymetry_F_5000.shp"@,
        ),
        layer_spec(
            s.layers@[7],
            "none"@,
            "#045a8d"@,
            "1.0"@,
            "1"@,
            "ne_10m_bathymetry_E_6000.shp"@,
        ),
        layer_spec(
            s.layers@[8],
            "none"@,
            "#023858"@,
            "1.0"@,
            "1"@,
            "ne_10m_bathymetry_D_7000.shp"@,
        ),
        layer_spec(
            s.layers@[9],
            "none"@,
            "#023858"@,
            "1.0"@,
            "1"@,
            "ne_10m_bathymetry_C_8000.shp"@,
        ),
        layer_spec(
            s.layers@[10],
            "none"@,
            "#023858"@,
            "1.0"@,
            "1"@,
            "ne_10m_bathymetry_B_9000.shp"@,
        ),
        layer_spec(s.layers@[11], "none"@, "dimgray"@, "1.0"@, "0"@, "ne_10m_land.shp"@),
        layer_spec(s.layers@[12], "none"@, "skyblue"@, "1.0"@, "0"@, "ne_10m_lakes.shp"@),
        layer_spec(s.layers@[13], "none"@, "silver"@, "1.0"@, "0"@, "ne_10m_reefs.shp"@),
        layer_spec(
            s.layers@[14],
            "none"@,
            "lightcyan"@,
            "1.0"@,
            "0"@,
            "ne_10m_antarctic_ice_shelves_polys.shp"@,
        ),
        layer_spec(
            s.layers@[15],
            "none"@,
            "aliceblue"@,
            "1.0"@,
            "0"@,
            "ne_10m_glaciated_areas.shp"@,
        ),
        layer_spec(
            s.layers@[16],
            "skyblue"@,
            "none"@,
            "1.0"@,
            "1"@,
            "ne_10m_rivers_lake_centerlines.shp"@,
        ),
{
    let background = layer("none", "#023858", "1.0", "1", "ne_10m_bathymetry_A_10000.shp");
    let mut layers: Vec<Layer> = Vec::new();
    layers.push(layer("none", "#fff7fb", "1.0", "1", "ne_10m_bathymetry_L_0.shp"));
    layers.push(layer("none", "#ece7f2", "1.0", "1", "ne_10m_bathymetry_K_200.shp"));
    layers.push(layer("none", "#d0d1e6", "1.0", "1", "ne_10m_bathymetry_J_1000.shp"));
    layers.push(layer("none", "#a6bddb", "1.0", "1", "ne_10m_bathymetry_I_2000.shp"));
    layers.push(layer("none", "#74a9cf", "1.0", "0", "ne_10m_bathymetry_H_3000.shp"));
    layers.push(layer("none", "#3690c0", "1.0", "1", "ne_10m_bathymetry_G_4000.shp"));
    layers.push(layer("none", "#0570b0", "1.0", "1", "ne_10m_bathymetry_F_5000.shp"));
    layers.push(layer("none", "#045a8d", "1.0", "1", "ne_10m_bathymetry_E_6000.shp"));
    layers.push(layer("none", "#023858", "1.0", "1", "ne_10m_bathymetry_D_7000.shp"));
    layers.push(layer("none", "#023858", "1.0", "1", "ne_10m_bathymetry_C_8000.shp"));
    layers.push(layer("none", "#023858", "1.0", "1", "ne_10m_bathymetry_B_9000.shp"));
    layers.push(layer("none", "dimgray", "1.0", "0", "ne_10m_land.shp"));
    layers.push(layer("none", "skyblue", "1.0", "0", "ne_10m_lakes.shp"));
    layers.push(layer("none", "silver", "1.0", "0", "ne_10m_reefs.shp"));
    layers.push(layer("none", "lightcyan", "1.0", "0", "ne_10m_antarctic_ice_shelves_polys.shp"));
    layers.push(layer("none", "aliceblue", "1.0", "0", "ne_10m_glaciated_areas.shp"));
    layers.push(layer("skyblue", "none", "1.0", "1", "ne_10m_rivers_lake_centerlines.shp"));
    Style { background, layers }
}

/// Returns a minimalistic grey style for high-resolution maps: transparent
/// silver ocean, black land with white borders.
pub fn grey_style() -> (s: Style)
    ensures
        layer_spec(s.background, "black"@, "silver"@, "0"@, "0"@, "ne_10m_ocean.shp"@),
        s.layers@.len() == 1,
        layer_spec(s.layers@[0], "white"@, "black"@, "1.0"@, "1"@, "ne_10m_land.shp"@),
{
    let background = layer("black", "silver", "0", "0", "ne_10m_ocean.shp");
    let mut layers: Vec<Layer> = Vec::new();
    layers.push(layer("white", "black", "1.0", "1", "ne_10m_land.shp"));
    Style { background, layers }
}

/// Returns a minimalistic grey style for high-resolution maps with a
/// transparent background: black land with white borders.
pub fn grey_style_transparent() -> (s: Style)
    ensures
        layer_spec(s.background, "black"@, "silver"@, "0"@, "0"@, "ne_10m_ocean.shp"@),
        s.layers@.len() == 1,
        layer_spec(s.layers@[0], "white"@, "black"@, "1.0"@, "1"@, "ne_10m_land.shp"@),
{
    let background = layer("black", "silver", "0", "0", "ne_10m_ocean.shp");
    let mut layers: Vec<Layer> = Vec::new();
    layers.push(layer("white", "black", "1.0", "1", "ne_10m_land.shp"));
    Style { background, layers }
}

/// Returns a minimalistic grey style for low-resolution maps:
/// semi-transparent silver ocean, dark grey land without borders.
pub fn grey_style_110() -> (s: Style)
    ensures
        layer_spec(s.background, "black"@, "silver"@, "0.5"@, "1"@, "ne_110m_ocean.shp"@),
        s.layers@.len() == 1,
        layer_spec(s.layers@[0], "none"@, "dimgray"@, "1.0"@, "0"@, "ne_110m_land.shp"@),
{
    let background = layer("black", "silver", "0.5", "1", "ne_110m_ocean.shp");
    let mut layers: Vec<Layer> = Vec::new();
    layers.push(layer("none", "dimgray", "1.0", "0", "ne_110m_land.shp"));
    Style { background, layers }
}

} // verus!
