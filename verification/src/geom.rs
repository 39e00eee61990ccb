//! Geometric value types: geographic points in microdegrees, screen points in
//! pixels, fixed-point unit-sphere points, and the shape records the assembler
//! consumes.
//!
//! All coordinates are integers. Geographic coordinates are scaled by
//! `MICRODEG` (one unit is a microdegree); unit-sphere coordinates and
//! trigonometric values are scaled by `UNIT` (one unit is `1 / UNIT`).

use vstd::prelude::*;

verus! {

/// Magnitude cap on a stored geographic coordinate, in microdegrees.
pub const GEO_MAX: i64 = 1_000_000_000;

/// Fixed-point one for unit-sphere coordinates and trigonometric values.
pub const UNIT: i64 = 1_000_000_000;

/// Magnitude cap on a unit-sphere point coordinate: room for a rotated point
/// slightly off the sphere, never for arbitrary vectors.
pub const VEC_MAX: i64 = 12_000_000_000;

/// Magnitude cap on a camera coordinate (the camera sits on the view axis,
/// well outside the sphere).
pub const CAM_MAX: i64 = 1_000_000_000_000;

/// A geographic point in microdegrees of longitude and latitude.
#[derive(Clone, Copy, Debug, PartialEq, Eq, Structural)]
pub struct GeoPoint {
    /// Longitude in microdegrees.
    pub lon: i64,
    /// Latitude in microdegrees.
    pub lat: i64,
}

impl GeoPoint {
    /// Both coordinates within the accepted geographic range.
    pub open spec fn wf(self) -> bool {
        -GEO_MAX <= self.lon <= GEO_MAX && -GEO_MAX <= self.lat <= GEO_MAX
    }
}

/// A screen point in pixels; `(0, 0)` is the top-left corner and y grows
/// downward. Values may lie outside the frame: features that only partially
/// intersect the frame legitimately project outside it.
#[derive(Clone, Copy, Debug, PartialEq, Eq, Structural)]
pub struct ScreenPoint {
    /// Horizontal pixel coordinate.
    pub x: i64,
    /// Vertical pixel coordinate.
    pub y: i64,
}

/// The integer coordinate pairs of a screen-point sequence.
pub open spec fn screen_views(pts: Seq<ScreenPoint>) -> Seq<(int, int)> {
    pts.map_values(|p: ScreenPoint| (p.x as int, p.y as int))
}

/// Appending a point appends its coordinate pair to the views.
pub proof fn lemma_screen_views_push(s: Seq<ScreenPoint>, p: ScreenPoint)
    ensures
        screen_views(s.push(p)) =~= screen_views(s).push((p.x as int, p.y as int)),
{
}

/// The dot product of two integer vectors.
pub open spec fn dot3(ax: int, ay: int, az: int, bx: int, by: int, bz: int) -> int {
    ax * bx + ay * by + az * bz
}

/// A 3D point in fixed-point Cartesian coordinates, scaled by `UNIT`; points
/// produced from geographic coordinates lie on the unit sphere.
#[derive(Clone, Copy, Debug, PartialEq, Eq, Structural)]
pub struct Point3D {
    /// x coordinate, scaled by `UNIT`.
    pub x: i64,
    /// y coordinate, scaled by `UNIT`.
    pub y: i64,
    /// z coordinate, scaled by `UNIT`.
    pub z: i64,
}

impl Point3D {
    /// All coordinates within the sphere-point range.
    pub open spec fn wf(self) -> bool {
        -VEC_MAX <= self.x <= VEC_MAX && -VEC_MAX <= self.y <= VEC_MAX && -VEC_MAX <= self.z
            <= VEC_MAX
    }

    /// All coordinates within the camera range.
    pub open spec fn cam_wf(self) -> bool {
        -CAM_MAX <= self.x <= CAM_MAX && -CAM_MAX <= self.y <= CAM_MAX && -CAM_MAX <= self.z
            <= CAM_MAX
    }

    /// All coordinates within magnitude `m`.
    pub open spec fn bounded(self, m: int) -> bool {
        -m <= self.x <= m && -m <= self.y <= m && -m <= self.z <= m
    }

    /// `self` lies on the hemisphere facing the camera: the dot product of the
    /// sphere normal at `self` with the vector from `self` to the camera is
    /// strictly positive. A camera coincident with the point gives a zero dot
    /// product and counts as not visible.
    pub open spec fn visible_spec(self, cx: int, cy: int, cz: int) -> bool {
        dot3(self.x as int, self.y as int, self.z as int, cx - self.x, cy - self.y, cz - self.z)
            > 0
    }

    /// Create a new 3D point.
    pub fn new(x: i64, y: i64, z: i64) -> (p: Point3D)
        ensures
            p == (Point3D { x, y, z }),
    {
        Point3D { x, y, z }
    }

    /// Calculate the dot product with another point.
    pub fn dot(&self, other: &Point3D) -> (d: i128)
        requires
            self.bounded(2 * CAM_MAX),
            other.bounded(2 * CAM_MAX),
        ensures
            d == dot3(
                self.x as int,
                self.y as int,
                self.z as int,
                other.x as int,
                other.y as int,
                other.z as int,
            ),
    {
        proof {
            crate::arith::lemma_mul_bound(
                self.x as int,
                other.x as int,
                2_000_000_000_000,
                2_000_000_000_000,
            );
            crate::arith::lemma_mul_bound(
                self.y as int,
                other.y as int,
                2_000_000_000_000,
                2_000_000_000_000,
            );
            crate::arith::lemma_mul_bound(
                self.z as int,
                other.z as int,
                2_000_000_000_000,
                2_000_000_000_000,
            );
        }
        (self.x as i128) * (other.x as i128) + (self.y as i128) * (other.y as i128) + (
        self.z as i128) * (other.z as i128)
    }

    /// Check whether this point is visible from a camera location.
    pub fn is_visible(&self, camera: &Point3D) -> (v: bool)
        requires
            self.wf(),
            camera.cam_wf(),
        ensures
            v == self.visible_spec(camera.x as int, camera.y as int, camera.z as int),
    {
        let camera_point_vector = Point3D::new(
            camera.x - self.x,
            camera.y - self.y,
            camera.z - self.z,
        );
        self.dot(&camera_point_vector) > 0
    }
}

/// Check whether a point is visible from the camera location.
pub fn point_visible_xyz(point: (i64, i64, i64), camera_location: (i64, i64, i64)) -> (v: bool)
    requires
        (Point3D { x: point.0, y: point.1, z: point.2 }).wf(),
        (Point3D { x: camera_location.0, y: camera_location.1, z: camera_location.2 }).cam_wf(),
    ensures
        v == (Point3D { x: point.0, y: point.1, z: point.2 }).visible_spec(
            camera_location.0 as int,
            camera_location.1 as int,
            camera_location.2 as int,
        ),
{
    let p = Point3D { x: point.0, y: point.1, z: point.2 };
    let cam = Point3D { x: camera_location.0, y: camera_location.1, z: camera_location.2 };
    p.is_visible(&cam)
}

/// Every vertex of the sequence is within the geographic range.
pub open spec fn part_wf(pts: Seq<GeoPoint>) -> bool {
    forall|i: int| 0 <= i < pts.len() ==> (#[trigger] pts[i]).wf()
}

/// One feature read from a shapefile: a polygon of closed rings, a polyline of
/// open parts, a labelled point, or a multipoint. Records of other shape kinds
/// are not handed to the assembler; mixed files legitimately contain them and
/// they are skipped, not reported as errors.
pub enum ShapeRecord {
    /// A polygon: an ordered list of closed vertex rings.
    Polygon { rings: Vec<Vec<GeoPoint>> },
    /// A polyline: an ordered list of open vertex runs.
    Polyline { parts: Vec<Vec<GeoPoint>> },
    /// A single point with the label drawn beside it.
    Point { point: GeoPoint, label: String },
    /// A bag of points; drawn by no layer in this pipeline.
    Multipoint { points: Vec<GeoPoint> },
}

impl ShapeRecord {
    /// Every vertex of the record is within the geographic range.
    pub open spec fn wf(self) -> bool {
        match self {
            ShapeRecord::Polygon { rings } => forall|i: int|
                0 <= i < rings@.len() ==> part_wf((#[trigger] rings@[i])@),
            ShapeRecord::Polyline { parts } => forall|i: int|
                0 <= i < parts@.len() ==> part_wf((#[trigger] parts@[i])@),
            ShapeRecord::Point { point, .. } => point.wf(),
            ShapeRecord::Multipoint { points } => part_wf(points@),
        }
    }
}

} // verus!
