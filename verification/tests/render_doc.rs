//! Renderer and composer behavior against the real vector document: attribute
//! values, path data strings, label content, and layer order in the output.

use natural_earth_basemap::compose::{
    draw_basemap, draw_equator, draw_graticules, render_record, visualize_shapefile,
};
use natural_earth_basemap::decimal::{i64_dec_string, u64_dec_string};
use natural_earth_basemap::frame::MapFrame;
use natural_earth_basemap::geom::{GeoPoint, ScreenPoint, ShapeRecord};
use natural_earth_basemap::render::{
    draw_point_with_label, draw_polygon, draw_polyline, draw_text, set_background,
};
use natural_earth_basemap::styles::{grey_style, Layer, LayerStyle, Style};

fn world_frame() -> MapFrame {
    MapFrame::new(100, 200, -180_000_000, 180_000_000, -90_000_000, 90_000_000).unwrap()
}

fn style(stroke: &str, fill: &str) -> LayerStyle {
    LayerStyle {
        stroke: stroke.to_string(),
        fill: fill.to_string(),
        fill_opacity: "1.0".to_string(),
        stroke_width: "1".to_string(),
    }
}

#[test]
fn polygon_path_data_and_attributes() {
    let mut doc = svg::Document::new();
    let pts = vec![
        ScreenPoint { x: 0, y: 0 },
        ScreenPoint { x: 10, y: 0 },
        ScreenPoint { x: 10, y: -5 },
    ];
    draw_polygon(&pts, &mut doc, &style("none", "wheat"));
    let markup = doc.to_string();
    assert!(markup.contains(r#"d="M0 0 L10 0 L10 -5""#), "markup: {markup}");
    assert!(markup.contains(r#"fill="wheat""#));
    assert!(markup.contains(r#"fill-opacity="1.0""#));
    assert!(markup.contains(r#"stroke="none""#));
    assert!(markup.contains(r#"stroke-width="1""#));
    assert!(!markup.contains("stroke-linejoin"));
}

#[test]
fn polyline_has_round_linejoin() {
    let mut doc = svg::Document::new();
    let pts = vec![ScreenPoint { x: 1, y: 2 }, ScreenPoint { x: 3, y: 4 }];
    draw_polyline(&pts, &mut doc, &style("skyblue", "none"));
    let markup = doc.to_string();
    assert!(markup.contains(r#"d="M1 2 L3 4""#), "markup: {markup}");
    assert!(markup.contains(r#"stroke-linejoin="round""#));
    assert!(markup.contains(r#"stroke="skyblue""#));
}

#[test]
fn text_label_content_and_anchor() {
    let mut doc = svg::Document::new();
    draw_text(ScreenPoint { x: 7, y: -9 }, "Reykjavik", &mut doc, 12, "black");
    let markup = doc.to_string();
    assert!(markup.contains("Reykjavik"), "markup: {markup}");
    assert!(markup.contains("</text>"));
    assert!(markup.contains(r#"x="7""#));
    assert!(markup.contains(r#"y="-9""#));
    assert!(markup.contains(r#"font-size="12""#));
    assert!(markup.contains(r#"text-anchor="middle""#));
    assert!(markup.contains(r#"font-family="Arial""#));
}

#[test]
fn background_covers_frame() {
    let f = world_frame();
    let mut doc = svg::Document::new();
    let bg = Layer {
        layer_style: style("black", "lightseagreen"),
        filename: "ne_10m_ocean.shp".to_string(),
    };
    set_background(&f, &mut doc, &bg);
    let markup = doc.to_string();
    assert!(markup.contains(r#"d="M0 0 L0 100 L200 100 L200 0""#), "markup: {markup}");
    assert!(markup.contains(r#"fill="lightseagreen""#));
}

#[test]
fn record_point_renders_marker_and_label_at_projection() {
    let f = world_frame();
    let mut doc = svg::Document::new();
    let record = ShapeRecord::Point {
        point: GeoPoint { lon: 0, lat: 0 },
        label: "origin".to_string(),
    };
    render_record(&f, &record, &mut doc, &style("none", "black"));
    let markup = doc.to_string();
    assert!(markup.contains(r#"cx="100""#), "markup: {markup}");
    assert!(markup.contains(r#"cy="50""#));
    assert!(markup.contains(r#"r="3""#));
    // The label is anchored a fixed offset above the marker.
    assert!(markup.contains(r#"x="100""#));
    assert!(markup.contains(r#"y="40""#));
    assert!(markup.contains("origin"));
    assert!(markup.contains("</text>"));
}

#[test]
fn point_with_empty_label_draws_marker_only() {
    let mut doc = svg::Document::new();
    draw_point_with_label(ScreenPoint { x: 5, y: 6 }, "", &mut doc, &style("none", "black"));
    let markup = doc.to_string();
    assert!(markup.contains("<circle"), "markup: {markup}");
    assert!(!markup.contains("<text"));
}

#[test]
fn multipoint_record_is_skipped() {
    let f = world_frame();
    let mut doc = svg::Document::new();
    let record = ShapeRecord::Multipoint {
        points: vec![GeoPoint { lon: 0, lat: 0 }],
    };
    render_record(&f, &record, &mut doc, &style("none", "black"));
    assert!(!doc.to_string().contains("<path"));
}

#[test]
fn layer_order_preserved() {
    // Rendering a style with layers [A, B] produces primitives in the
    // document in the order A before B, whatever each layer's feature count.
    let f = world_frame();
    let mut doc = svg::Document::new();
    let ring = vec![
        GeoPoint { lon: -10_000_000, lat: -10_000_000 },
        GeoPoint { lon: 10_000_000, lat: -10_000_000 },
        GeoPoint { lon: 0, lat: 10_000_000 },
    ];
    let layer_a = vec![
        ShapeRecord::Polygon { rings: vec![ring.clone(), ring.clone()] },
        ShapeRecord::Polygon { rings: vec![ring.clone()] },
    ];
    let layer_b = vec![ShapeRecord::Polygon { rings: vec![ring.clone()] }];
    visualize_shapefile(&f, &layer_a, &mut doc, &style("none", "wheat"));
    visualize_shapefile(&f, &layer_b, &mut doc, &style("none", "dimgray"));
    let markup = doc.to_string();
    let first_b = markup.find("dimgray").unwrap();
    let last_a = markup.rfind("wheat").unwrap();
    assert!(last_a < first_b, "markup: {markup}");
    assert_eq!(markup.matches("wheat").count(), 3);
    assert_eq!(markup.matches("dimgray").count(), 1);
}

#[test]
fn basemap_draws_background_then_layers() {
    let f = world_frame();
    let mut doc = svg::Document::new();
    let s: Style = grey_style();
    let ring = vec![
        GeoPoint { lon: -10_000_000, lat: -10_000_000 },
        GeoPoint { lon: 10_000_000, lat: -10_000_000 },
        GeoPoint { lon: 0, lat: 10_000_000 },
    ];
    let records = vec![vec![ShapeRecord::Polygon { rings: vec![ring] }]];
    draw_basemap(&f, &mut doc, &s, &records);
    let markup = doc.to_string();
    // Background (silver) before the land layer (black fill).
    let bg = markup.find(r#"fill="silver""#).unwrap();
    let land = markup.find(r#"fill="black""#).unwrap();
    assert!(bg < land, "markup: {markup}");
}

#[test]
fn graticule_line_counts() {
    let f = world_frame();
    let mut doc = svg::Document::new();
    draw_graticules(&f, &mut doc, &style("black", "none"));
    let markup = doc.to_string();
    // Twenty-five meridians and thirteen parallels.
    assert_eq!(markup.matches("<path").count(), 38);
}

#[test]
fn equator_line() {
    let f = world_frame();
    let mut doc = svg::Document::new();
    draw_equator(&f, &mut doc, &style("red", "none"));
    let markup = doc.to_string();
    assert_eq!(markup.matches("<path").count(), 1);
    // Latitude zero maps to the vertical middle of the world frame; the
    // trace starts at 180 degrees west, pixel zero.
    assert!(markup.contains(r#"d="M0 50 L"#), "markup: {markup}");
}

#[test]
fn decimal_strings() {
    assert_eq!(i64_dec_string(0).as_str(), "0");
    assert_eq!(i64_dec_string(-17).as_str(), "-17");
    assert_eq!(i64_dec_string(9_223_372_036_854_775_807).as_str(), "9223372036854775807");
    assert_eq!(i64_dec_string(i64::MIN).as_str(), "-9223372036854775808");
    assert_eq!(u64_dec_string(1_000_000).as_str(), "1000000");
}
