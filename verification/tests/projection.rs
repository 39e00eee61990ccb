//! Projector behavior: scaling, boundaries, visibility and the orthographic
//! rim clamp, on concrete values.

use natural_earth_basemap::arith::{div_floor, isqrt};
use natural_earth_basemap::frame::MapFrame;
use natural_earth_basemap::geom::{point_visible_xyz, GeoPoint, Point3D, ScreenPoint, UNIT};
use natural_earth_basemap::project::{
    orthographic_mapping_function, project_equirectangular, RotationTrig,
};

fn world_frame() -> MapFrame {
    MapFrame::new(100, 200, -180_000_000, 180_000_000, -90_000_000, 90_000_000).unwrap()
}

#[test]
fn scenario_world_center() {
    let f = world_frame();
    let sp = project_equirectangular(GeoPoint { lon: 0, lat: 0 }, &f);
    assert_eq!(sp, ScreenPoint { x: 100, y: 50 });
}

#[test]
fn boundary_mapping() {
    let f = world_frame();
    let sw = project_equirectangular(GeoPoint { lon: -180_000_000, lat: -90_000_000 }, &f);
    assert_eq!(sw, ScreenPoint { x: 0, y: 100 });
    let ne = project_equirectangular(GeoPoint { lon: 180_000_000, lat: 90_000_000 }, &f);
    assert_eq!(ne, ScreenPoint { x: 200, y: 0 });
}

#[test]
fn round_trip_scaling_inside() {
    let f = world_frame();
    for &(lon, lat) in &[
        (-179_999_999i64, -89_999_999i64),
        (1, 1),
        (123_456_789, -45_000_000),
        (179_999_999, 89_999_999),
    ] {
        let sp = project_equirectangular(GeoPoint { lon, lat }, &f);
        assert!(0 <= sp.x && sp.x <= f.cols, "x out of frame: {}", sp.x);
        assert!(0 <= sp.y && sp.y <= f.rows, "y out of frame: {}", sp.y);
    }
}

#[test]
fn outside_points_project_outside() {
    let f = MapFrame::new(100, 100, 0, 10_000_000, 0, 10_000_000).unwrap();
    let sp = project_equirectangular(GeoPoint { lon: -20_000_000, lat: 5_000_000 }, &f);
    assert!(sp.x < 0);
}

#[test]
fn visibility_symmetry() {
    let camera = (100 * UNIT, 0, 0);
    let facing = Point3D::from_lat_lon_trig(0, UNIT, 0, UNIT);
    assert_eq!((facing.x, facing.y, facing.z), (UNIT, 0, 0));
    assert!(point_visible_xyz((facing.x, facing.y, facing.z), camera));
    let antipodal = Point3D::from_lat_lon_trig(0, UNIT, 0, -UNIT);
    assert_eq!((antipodal.x, antipodal.y, antipodal.z), (-UNIT, 0, 0));
    assert!(!point_visible_xyz((antipodal.x, antipodal.y, antipodal.z), camera));
}

#[test]
fn camera_coincident_with_point_is_not_visible() {
    let p = Point3D::new(UNIT, 0, 0);
    assert!(!point_visible_xyz((p.x, p.y, p.z), (p.x, p.y, p.z)));
}

#[test]
fn orthographic_visible_point() {
    let f = world_frame();
    let p = Point3D::new(UNIT, 0, 0);
    let sp = orthographic_mapping_function(p, &f, (100 * UNIT, 0, 0));
    assert_eq!(sp, ScreenPoint { x: 100, y: 50 });
}

#[test]
fn orthographic_clamp_to_rim() {
    let f = world_frame();
    // A back-hemisphere point off the view axis: its plane coordinates are
    // pushed out to the unit circle, so it lands on the frame edge.
    let p = Point3D::new(-600_000_000, 800_000_000, 0);
    let sp = orthographic_mapping_function(p, &f, (100 * UNIT, 0, 0));
    assert_eq!(sp, ScreenPoint { x: 200, y: 50 });
}

#[test]
fn orthographic_axis_point_defaults_to_center() {
    let f = world_frame();
    // The antipodal point has no direction to normalize; it maps to the
    // plane origin, the safe default, rather than dividing by zero.
    let p = Point3D::new(-UNIT, 0, 0);
    let sp = orthographic_mapping_function(p, &f, (100 * UNIT, 0, 0));
    assert_eq!(sp, ScreenPoint { x: 100, y: 50 });
}

#[test]
fn rotation_by_zero_angles_is_identity() {
    let ident = RotationTrig {
        sin_roll: 0,
        cos_roll: UNIT,
        sin_pitch: 0,
        cos_pitch: UNIT,
        sin_yaw: 0,
        cos_yaw: UNIT,
    };
    let mut p = Point3D::new(123_456_789, -987_654_321, 55_555);
    p.rotate_point(ident);
    assert_eq!((p.x, p.y, p.z), (123_456_789, -987_654_321, 55_555));
}

#[test]
fn rotation_quarter_yaw_moves_x_to_y() {
    // Yaw by ninety degrees: sin = 1, cos = 0.
    let quarter = RotationTrig {
        sin_roll: 0,
        cos_roll: UNIT,
        sin_pitch: 0,
        cos_pitch: UNIT,
        sin_yaw: UNIT,
        cos_yaw: 0,
    };
    let mut p = Point3D::new(UNIT, 0, 0);
    p.rotate_point(quarter);
    assert_eq!((p.x, p.y, p.z), (0, UNIT, 0));
}

#[test]
fn frame_rejects_degenerate_bounds() {
    assert!(MapFrame::new(0, 200, -1, 1, -1, 1).is_none());
    assert!(MapFrame::new(100, 0, -1, 1, -1, 1).is_none());
    assert!(MapFrame::new(100, 200, 1, 1, -1, 1).is_none());
    assert!(MapFrame::new(100, 200, -1, 1, 2, 1).is_none());
    assert!(MapFrame::new(100, 200, -2_000_000_000, 1, -1, 1).is_none());
    assert!(MapFrame::new(100, 200, -1, 1, -1, 1).is_some());
}

#[test]
fn arithmetic_helpers() {
    assert_eq!(div_floor(7, 2), 3);
    assert_eq!(div_floor(-7, 2), -4);
    assert_eq!(div_floor(-8, 2), -4);
    assert_eq!(isqrt(0), 0);
    assert_eq!(isqrt(63), 7);
    assert_eq!(isqrt(64), 8);
    assert_eq!(isqrt(u64::MAX as u128), 4_294_967_295);
}
