//! Assembler behavior: projection of rings and parts, the all-outside drop
//! for polylines, and orthographic culling with the minimum-size rule.

use natural_earth_basemap::assemble::{
    assemble_ortho, assemble_part_equirect, assemble_ring_equirect,
};
use natural_earth_basemap::frame::MapFrame;
use natural_earth_basemap::geom::{GeoPoint, Point3D, ScreenPoint, UNIT};

fn world_frame() -> MapFrame {
    MapFrame::new(100, 200, -180_000_000, 180_000_000, -90_000_000, 90_000_000).unwrap()
}

fn small_frame() -> MapFrame {
    MapFrame::new(100, 100, 0, 10_000_000, 0, 10_000_000).unwrap()
}

const CAMERA: (i64, i64, i64) = (100 * UNIT, 0, 0);

/// A unit-sphere point well inside the camera-facing hemisphere, tilted a
/// little so consecutive vertices differ.
fn facing(k: i64) -> Point3D {
    Point3D::new(900_000_000, 100_000_000 + k * 1_000_000, -200_000_000 + k * 1_000_000)
}

/// A unit-sphere point on the back hemisphere.
fn hidden(k: i64) -> Point3D {
    Point3D::new(-900_000_000, 100_000_000 + k * 1_000_000, 200_000_000)
}

#[test]
fn empty_ring_is_dropped() {
    let f = world_frame();
    assert!(assemble_ring_equirect(&f, &Vec::new()).is_none());
}

#[test]
fn ring_projects_every_vertex() {
    let f = world_frame();
    let ring = vec![
        GeoPoint { lon: 0, lat: 0 },
        GeoPoint { lon: -180_000_000, lat: -90_000_000 },
        GeoPoint { lon: 180_000_000, lat: 90_000_000 },
    ];
    let pts = assemble_ring_equirect(&f, &ring).unwrap();
    assert_eq!(
        pts,
        vec![
            ScreenPoint { x: 100, y: 50 },
            ScreenPoint { x: 0, y: 100 },
            ScreenPoint { x: 200, y: 0 },
        ]
    );
}

#[test]
fn ring_larger_than_frame_is_kept() {
    let f = small_frame();
    let ring = vec![
        GeoPoint { lon: -20_000_000, lat: -20_000_000 },
        GeoPoint { lon: 30_000_000, lat: -20_000_000 },
        GeoPoint { lon: 30_000_000, lat: 30_000_000 },
        GeoPoint { lon: -20_000_000, lat: 30_000_000 },
    ];
    assert!(assemble_ring_equirect(&f, &ring).is_some());
}

#[test]
fn part_entirely_outside_is_dropped() {
    let f = small_frame();
    let part = vec![
        GeoPoint { lon: -20_000_000, lat: 5_000_000 },
        GeoPoint { lon: -30_000_000, lat: 6_000_000 },
    ];
    assert!(assemble_part_equirect(&f, &part).is_none());
}

#[test]
fn part_partially_inside_is_kept_whole() {
    let f = small_frame();
    let part = vec![
        GeoPoint { lon: -20_000_000, lat: 5_000_000 },
        GeoPoint { lon: 5_000_000, lat: 5_000_000 },
    ];
    let pts = assemble_part_equirect(&f, &part).unwrap();
    assert_eq!(pts.len(), 2);
    assert_eq!(pts[1], ScreenPoint { x: 50, y: 50 });
}

#[test]
fn empty_part_is_dropped() {
    let f = world_frame();
    assert!(assemble_part_equirect(&f, &Vec::new()).is_none());
}

#[test]
fn degenerate_ring_drop() {
    // Three visible vertices survive culling as three points: below the
    // minimum of four, so the ring is never forwarded to the renderer.
    let f = world_frame();
    let ring = vec![facing(0), facing(1), facing(2)];
    assert!(assemble_ortho(&f, CAMERA, &ring).is_none());
}

#[test]
fn invisible_run_collapses_to_one_rim_point() {
    // Visible, visible, hidden, hidden, visible: the two hidden vertices
    // collapse into the single rim-clamped projection of the first, so four
    // points survive and the ring is kept.
    let f = world_frame();
    let ring = vec![facing(0), facing(1), hidden(0), hidden(1), facing(2)];
    let pts = assemble_ortho(&f, CAMERA, &ring).unwrap();
    assert_eq!(pts.len(), 4);
}

#[test]
fn culling_below_minimum_after_collapse() {
    // Visible, hidden, hidden, hidden, visible: survivors are two visible
    // points plus one rim point — three, so the ring is dropped.
    let f = world_frame();
    let ring = vec![facing(0), hidden(0), hidden(1), hidden(2), facing(1)];
    assert!(assemble_ortho(&f, CAMERA, &ring).is_none());
}

#[test]
fn all_hidden_ring_is_dropped() {
    let f = world_frame();
    let ring = vec![hidden(0), hidden(1), hidden(2), hidden(3), hidden(4)];
    assert!(assemble_ortho(&f, CAMERA, &ring).is_none());
}

#[test]
fn fully_visible_ring_keeps_every_vertex() {
    let f = world_frame();
    let ring = vec![facing(0), facing(1), facing(2), facing(3), facing(4)];
    let pts = assemble_ortho(&f, CAMERA, &ring).unwrap();
    assert_eq!(pts.len(), 5);
}
