//! Pure coordinate transforms and visibility tests: the equirectangular and
//! orthographic projections, the unit-sphere embedding, and Euler rotation.
//!
//! All functions are stateless and perform no I/O. Trigonometric values enter
//! as fixed-point arguments scaled by `UNIT`; everything past them is exact
//! integer arithmetic, with division rounding toward negative infinity.

use vstd::prelude::*;
use vstd::arithmetic::div_mod::{
    lemma_div_by_multiple,
    lemma_div_is_ordered,
    lemma_div_of0,
    lemma_div_pos_is_pos,
    lemma_fundamental_div_mod,
};
use crate::arith::{div_floor, isqrt, isqrt_spec, lemma_mul_bound};
use crate::frame::MapFrame;
use crate::geom::{point_visible_xyz, GeoPoint, Point3D, ScreenPoint, UNIT, VEC_MAX};

verus! {

/// Horizontal pixel coordinate of a longitude under the frame's bounding box:
/// the longitude is normalized into `[0, 1]` over `[lon_min, lon_max]` and
/// scaled to `[0, cols]`. Nothing clamps the result; longitudes outside the
/// box map outside the frame.
pub open spec fn equirect_x(f: MapFrame, lon: int) -> int {
    f.cols as int * (lon - f.lon_min as int) / (f.lon_max as int - f.lon_min as int)
}

/// Vertical pixel coordinate of a latitude under the frame's bounding box:
/// normalized into `[0, 1]` over `[lat_min, lat_max]`, scaled to `[0, rows]`
/// and flipped so that north is up.
pub open spec fn equirect_y(f: MapFrame, lat: int) -> int {
    f.rows as int - f.rows as int * (lat - f.lat_min as int) / (f.lat_max as int
        - f.lat_min as int)
}

/// A quotient with a positive divisor is bounded by the dividend's magnitude.
proof fn lemma_div_magnitude(a: int, b: int)
    requires
        b >= 1,
    ensures
        a >= 0 ==> 0 <= a / b <= a,
        a < 0 ==> a <= a / b <= 0,
{
    lemma_fundamental_div_mod(a, b);
    let q = a / b;
    let r = a % b;
    if a >= 0 {
        lemma_div_pos_is_pos(a, b);
        assert(q <= a) by (nonlinear_arith)
            requires
                a == b * q + r,
                0 <= r < b,
                b >= 1,
                q >= 0,
                a >= 0;
    } else {
        assert(a <= q <= 0) by (nonlinear_arith)
            requires
                a == b * q + r,
                0 <= r < b,
                b >= 1,
                a < 0;
    }
}

/// Map a geographic point to a pixel position under the equirectangular
/// projection. The result may lie outside `[0, cols] x [0, rows]`: features
/// that only partially intersect the frame are projected, not clipped.
pub fn project_equirectangular(point: GeoPoint, frame: &MapFrame) -> (r: ScreenPoint)
    requires
        point.wf(),
        frame.wf(),
    ensures
        r.x == equirect_x(*frame, point.lon as int),
        r.y == equirect_y(*frame, point.lat as int),
        -4_000_000_000_000_000 <= r.x <= 4_000_000_000_000_000,
        -4_000_000_000_000_000 <= r.y <= 4_000_000_000_000_000,
{
    proof {
        lemma_mul_bound(frame.cols as int, point.lon - frame.lon_min, 1_000_000, 2_000_000_000);
    }
    let num_x: i128 = (frame.cols as i128) * ((point.lon - frame.lon_min) as i128);
    let den_x: i128 = (frame.lon_max - frame.lon_min) as i128;
    let qx = div_floor(num_x, den_x);
    proof {
        lemma_div_magnitude(num_x as int, den_x as int);
    }
    proof {
        lemma_mul_bound(frame.rows as int, point.lat - frame.lat_min, 1_000_000, 2_000_000_000);
    }
    let num_y: i128 = (frame.rows as i128) * ((point.lat - frame.lat_min) as i128);
    let den_y: i128 = (frame.lat_max - frame.lat_min) as i128;
    let qy = div_floor(num_y, den_y);
    proof {
        lemma_div_magnitude(num_y as int, den_y as int);
    }
    ScreenPoint { x: qx as i64, y: frame.rows - qy as i64 }
}

/// A positive scale times a proper fraction of the divisor, divided by the
/// divisor, stays within `[0, c)`.
proof fn lemma_scale_in_range(c: int, d: int, dl: int)
    requires
        0 < c,
        0 <= d < dl,
    ensures
        0 <= c * d / dl < c,
{
    assert(c * d >= 0) by (nonlinear_arith)
        requires
            c > 0,
            d >= 0;
    lemma_div_pos_is_pos(c * d, dl);
    assert(c * d <= c * dl - 1) by (nonlinear_arith)
        requires
            c > 0,
            0 <= d < dl;
    lemma_div_is_ordered(c * d, c * dl - 1, dl);
    lemma_fundamental_div_mod(c * dl - 1, dl);
    let q = (c * dl - 1) / dl;
    assert(q < c) by (nonlinear_arith)
        requires
            c * dl - 1 == dl * q + (c * dl - 1) % dl,
            0 <= (c * dl - 1) % dl < dl,
            dl >= 1;
}

/// Round-trip scaling: a geographic point strictly inside the frame's
/// bounding box projects strictly into the frame's pixel rectangle.
pub proof fn lemma_round_trip_scaling(f: MapFrame, p: GeoPoint)
    requires
        f.wf(),
        f.lon_min < p.lon < f.lon_max,
        f.lat_min < p.lat < f.lat_max,
    ensures
        0 <= equirect_x(f, p.lon as int) < f.cols,
        0 < equirect_y(f, p.lat as int) <= f.rows,
{
    lemma_scale_in_range(
        f.cols as int,
        p.lon as int - f.lon_min as int,
        f.lon_max as int - f.lon_min as int,
    );
    lemma_scale_in_range(
        f.rows as int,
        p.lat as int - f.lat_min as int,
        f.lat_max as int - f.lat_min as int,
    );
}

/// Boundary mapping: the south-west corner of the bounding box projects to
/// the bottom-left pixel corner `(0, rows)` and the north-east corner to the
/// top-right pixel corner `(cols, 0)`.
pub proof fn lemma_boundary_mapping(f: MapFrame)
    requires
        f.wf(),
    ensures
        equirect_x(f, f.lon_min as int) == 0,
        equirect_y(f, f.lat_min as int) == f.rows,
        equirect_x(f, f.lon_max as int) == f.cols,
        equirect_y(f, f.lat_max as int) == 0,
{
    let dlon = f.lon_max as int - f.lon_min as int;
    let dlat = f.lat_max as int - f.lat_min as int;
    assert(f.cols as int * (f.lon_min as int - f.lon_min as int) == 0) by (nonlinear_arith);
    assert(f.rows as int * (f.lat_min as int - f.lat_min as int) == 0) by (nonlinear_arith);
    lemma_div_of0(dlon);
    lemma_div_of0(dlat);
    assert(f.cols as int * (f.lon_max as int - f.lon_min as int) == f.cols as int * dlon);
    lemma_div_by_multiple(f.cols as int, dlon);
    assert(f.rows as int * (f.lat_max as int - f.lat_min as int) == f.rows as int * dlat);
    lemma_div_by_multiple(f.rows as int, dlat);
}

/// A fixed-point value within `[-UNIT, UNIT]`, the range of a sine or cosine
/// scaled by `UNIT`.
pub open spec fn trig_wf(v: int) -> bool {
    -UNIT <= v <= UNIT
}

/// Multiply two `UNIT`-scaled values and rescale the product back by `UNIT`,
/// rounding toward negative infinity.
pub open spec fn scaled_mul_spec(a: int, b: int) -> int {
    a * b / UNIT as int
}

/// Fixed-point product of two `UNIT`-scaled values.
fn scaled_mul(a: i64, b: i64) -> (r: i64)
    requires
        trig_wf(a as int),
        trig_wf(b as int),
    ensures
        r == scaled_mul_spec(a as int, b as int),
        trig_wf(r as int),
{
    proof {
        lemma_mul_bound(a as int, b as int, UNIT as int, UNIT as int);
        crate::arith::lemma_div_range(a as int * b as int, UNIT as int, UNIT as int);
    }
    let q = div_floor((a as i128) * (b as i128), UNIT as i128);
    q as i64
}

impl Point3D {
    /// The unit-sphere embedding of a geographic point, from the fixed-point
    /// sine and cosine of its latitude and longitude: the standard mapping
    /// `x = cos(lat) cos(lon)`, `y = cos(lat) sin(lon)`, `z = sin(lat)`,
    /// with the radius fixed at one.
    pub fn from_lat_lon_trig(sin_lat: i64, cos_lat: i64, sin_lon: i64, cos_lon: i64) -> (p:
        Point3D)
        requires
            trig_wf(sin_lat as int),
            trig_wf(cos_lat as int),
            trig_wf(sin_lon as int),
            trig_wf(cos_lon as int),
        ensures
            p.x == scaled_mul_spec(cos_lat as int, cos_lon as int),
            p.y == scaled_mul_spec(cos_lat as int, sin_lon as int),
            p.z == sin_lat,
            p.wf(),
    {
        Point3D {
            x: scaled_mul(cos_lat, cos_lon),
            y: scaled_mul(cos_lat, sin_lon),
            z: sin_lat,
        }
    }
}

/// The fixed-point sines and cosines of the three Euler angles of a rotation:
/// roll about X, pitch about Y, yaw about Z.
#[derive(Clone, Copy, PartialEq, Eq, Structural)]
pub struct RotationTrig {
    /// Sine of the roll angle, scaled by `UNIT`.
    pub sin_roll: i64,
    /// Cosine of the roll angle, scaled by `UNIT`.
    pub cos_roll: i64,
    /// Sine of the pitch angle, scaled by `UNIT`.
    pub sin_pitch: i64,
    /// Cosine of the pitch angle, scaled by `UNIT`.
    pub cos_pitch: i64,
    /// Sine of the yaw angle, scaled by `UNIT`.
    pub sin_yaw: i64,
    /// Cosine of the yaw angle, scaled by `UNIT`.
    pub cos_yaw: i64,
}

impl RotationTrig {
    /// Every entry within the fixed-point sine/cosine range.
    pub open spec fn wf(self) -> bool {
        &&& trig_wf(self.sin_roll as int)
        &&& trig_wf(self.cos_roll as int)
        &&& trig_wf(self.sin_pitch as int)
        &&& trig_wf(self.cos_pitch as int)
        &&& trig_wf(self.sin_yaw as int)
        &&& trig_wf(self.cos_yaw as int)
    }
}

/// Entries of the ZYX rotation matrix, scaled by `UNIT`; triple products are
/// rescaled in two steps, innermost first.
pub open spec fn rot_e00(t: RotationTrig) -> int {
    scaled_mul_spec(t.cos_pitch as int, t.cos_yaw as int)
}

/// Matrix entry row 0, column 1.
pub open spec fn rot_e01(t: RotationTrig) -> int {
    -scaled_mul_spec(t.cos_pitch as int, t.sin_yaw as int)
}

/// Matrix entry row 1, column 0.
pub open spec fn rot_e10(t: RotationTrig) -> int {
    scaled_mul_spec(t.cos_roll as int, t.sin_yaw as int) + scaled_mul_spec(
        scaled_mul_spec(t.sin_roll as int, t.sin_pitch as int),
        t.cos_yaw as int,
    )
}

/// Matrix entry row 1, column 1.
pub open spec fn rot_e11(t: RotationTrig) -> int {
    scaled_mul_spec(t.cos_roll as int, t.cos_yaw as int) - scaled_mul_spec(
        scaled_mul_spec(t.sin_roll as int, t.sin_pitch as int),
        t.sin_yaw as int,
    )
}

/// Matrix entry row 1, column 2.
pub open spec fn rot_e12(t: RotationTrig) -> int {
    -scaled_mul_spec(t.sin_roll as int, t.cos_pitch as int)
}

/// Matrix entry row 2, column 0.
pub open spec fn rot_e20(t: RotationTrig) -> int {
    scaled_mul_spec(t.sin_roll as int, t.sin_yaw as int) - scaled_mul_spec(
        scaled_mul_spec(t.cos_roll as int, t.sin_pitch as int),
        t.cos_yaw as int,
    )
}

/// Matrix entry row 2, column 1.
pub open spec fn rot_e21(t: RotationTrig) -> int {
    scaled_mul_spec(t.sin_roll as int, t.cos_yaw as int) + scaled_mul_spec(
        scaled_mul_spec(t.cos_roll as int, t.sin_pitch as int),
        t.sin_yaw as int,
    )
}

/// Matrix entry row 2, column 2.
pub open spec fn rot_e22(t: RotationTrig) -> int {
    scaled_mul_spec(t.cos_roll as int, t.cos_pitch as int)
}

/// One row of the rotation applied to a point: the scaled inner product of
/// the row's entries with the point's coordinates, rescaled by `UNIT`.
pub open spec fn rot_row_spec(x: int, y: int, z: int, e0: int, e1: int, e2: int) -> int {
    (x * e0 + y * e1 + z * e2) / UNIT as int
}

/// Magnitude cap on a point accepted by `rotate_point`: on or near the unit
/// sphere, with a factor of two of slack.
pub const SPHERE_NEAR: i64 = 2_000_000_000;

/// Apply one rotation-matrix row to a point's coordinates.
fn rot_row(x: i64, y: i64, z: i64, e0: i64, e1: i64, e2: i64) -> (r: i64)
    requires
        -SPHERE_NEAR <= x <= SPHERE_NEAR,
        -SPHERE_NEAR <= y <= SPHERE_NEAR,
        -SPHERE_NEAR <= z <= SPHERE_NEAR,
        -2 * UNIT <= e0 <= 2 * UNIT,
        -2 * UNIT <= e1 <= 2 * UNIT,
        -2 * UNIT <= e2 <= 2 * UNIT,
    ensures
        r == rot_row_spec(x as int, y as int, z as int, e0 as int, e1 as int, e2 as int),
        -VEC_MAX <= r <= VEC_MAX,
{
    proof {
        lemma_mul_bound(x as int, e0 as int, 2_000_000_000, 2_000_000_000);
        lemma_mul_bound(y as int, e1 as int, 2_000_000_000, 2_000_000_000);
        lemma_mul_bound(z as int, e2 as int, 2_000_000_000, 2_000_000_000);
        crate::arith::lemma_div_range(
            x as int * e0 as int + y as int * e1 as int + z as int * e2 as int,
            12_000_000_000,
            UNIT as int,
        );
    }
    let sum: i128 = (x as i128) * (e0 as i128) + (y as i128) * (e1 as i128) + (z as i128) * (
    e2 as i128);
    let q = div_floor(sum, UNIT as i128);
    q as i64
}

impl Point3D {
    /// Rotate this point by three Euler angles using the ZYX (intrinsic)
    /// convention: yaw about Z, then pitch about Y, then roll about X. The
    /// angles enter as their fixed-point sines and cosines.
    pub fn rotate_point(&mut self, angles: RotationTrig)
        requires
            old(self).bounded(SPHERE_NEAR as int),
            angles.wf(),
        ensures
            final(self).x == rot_row_spec(
                old(self).x as int,
                old(self).y as int,
                old(self).z as int,
                rot_e00(angles),
                rot_e01(angles),
                angles.sin_pitch as int,
            ),
            final(self).y == rot_row_spec(
                old(self).x as int,
                old(self).y as int,
                old(self).z as int,
                rot_e10(angles),
                rot_e11(angles),
                rot_e12(angles),
            ),
            final(self).z == rot_row_spec(
                old(self).x as int,
                old(self).y as int,
                old(self).z as int,
                rot_e20(angles),
                rot_e21(angles),
                rot_e22(angles),
            ),
            final(self).wf(),
    {
        let sa = angles.sin_roll;
        let ca = angles.cos_roll;
        let sb = angles.sin_pitch;
        let cb = angles.cos_pitch;
        let sc = angles.sin_yaw;
        let cc = angles.cos_yaw;

        let e00 = scaled_mul(cb, cc);
        let e01 = -scaled_mul(cb, sc);
        let sa_sb = scaled_mul(sa, sb);
        let e10 = scaled_mul(ca, sc) + scaled_mul(sa_sb, cc);
        let e11 = scaled_mul(ca, cc) - scaled_mul(sa_sb, sc);
        let e12 = -scaled_mul(sa, cb);
        let ca_sb = scaled_mul(ca, sb);
        let e20 = scaled_mul(sa, sc) - scaled_mul(ca_sb, cc);
        let e21 = scaled_mul(sa, cc) + scaled_mul(ca_sb, sc);
        let e22 = scaled_mul(ca, cb);

        let x1 = rot_row(self.x, self.y, self.z, e00, e01, sb);
        let y1 = rot_row(self.x, self.y, self.z, e10, e11, e12);
        let z1 = rot_row(self.x, self.y, self.z, e20, e21, e22);

        self.x = x1;
        self.y = y1;
        self.z = z1;
    }
}

/// Horizontal pixel coordinate of a `UNIT`-scaled projection-plane coordinate:
/// `[-1, 1]` is scaled to `[0, 1]` and then to `[0, cols]`.
pub open spec fn ortho_px(cols: int, u: int) -> int {
    cols * (u + UNIT as int) / (2 * UNIT as int)
}

/// Vertical pixel coordinate of a `UNIT`-scaled projection-plane coordinate,
/// flipped so that north is up.
pub open spec fn ortho_py(rows: int, v: int) -> int {
    rows - rows * (v + UNIT as int) / (2 * UNIT as int)
}

/// The squared norm of the projection-plane coordinates.
pub open spec fn rim_sq(u: int, v: int) -> int {
    u * u + v * v
}

/// One coordinate of the projection-plane point pushed out to the visible
/// rim: scaled by `UNIT` and divided by the integer square root of the
/// squared norm.
pub open spec fn rim_scaled(c: int, u: int, v: int) -> int {
    c * UNIT as int / (isqrt_spec(rim_sq(u, v) as nat) as int)
}

/// Scale projection-plane coordinates in `[-UNIT, UNIT]` to the frame's pixel
/// rectangle; values outside that range scale outside the frame.
fn ortho_scale(frame: &MapFrame, u: i64, v: i64) -> (r: ScreenPoint)
    requires
        frame.wf(),
        -VEC_MAX <= u <= VEC_MAX,
        -VEC_MAX <= v <= VEC_MAX,
    ensures
        r.x == ortho_px(frame.cols as int, u as int),
        r.y == ortho_py(frame.rows as int, v as int),
{
    proof {
        lemma_mul_bound(frame.cols as int, u as int + UNIT as int, 1_000_000, 13_000_000_000);
        lemma_mul_bound(frame.rows as int, v as int + UNIT as int, 1_000_000, 13_000_000_000);
    }
    let num_x: i128 = (frame.cols as i128) * ((u as i128) + (UNIT as i128));
    let qx = div_floor(num_x, 2 * (UNIT as i128));
    proof {
        lemma_div_magnitude(num_x as int, 2 * UNIT as int);
    }
    let num_y: i128 = (frame.rows as i128) * ((v as i128) + (UNIT as i128));
    let qy = div_floor(num_y, 2 * (UNIT as i128));
    proof {
        lemma_div_magnitude(num_y as int, 2 * UNIT as int);
    }
    ScreenPoint { x: qx as i64, y: frame.rows - qy as i64 }
}

/// Orthographic clamp: pushing a back-hemisphere point to the visible rim
/// normalizes its projection-plane coordinates to the unit circle — the
/// squared norm of the rim point is `UNIT * UNIT` up to fixed-point rounding,
/// within 0.3 percent. Points within a thousandth of a radius of the view
/// axis are excluded: so close to the axis the integer normalization has no
/// precision left (and exactly on the axis there is no direction to
/// normalize at all).
pub proof fn lemma_orthographic_clamp(u: int, v: int)
    requires
        1_000_000 <= rim_sq(u, v),
        -VEC_MAX <= u <= VEC_MAX,
        -VEC_MAX <= v <= VEC_MAX,
    ensures
        ({
            let ru = rim_scaled(u, u, v);
            let rv = rim_scaled(v, u, v);
            999_999_995_000_000_000 <= ru * ru + rv * rv <= 1_003_000_000_000_000_000
        }),
{
    let s = rim_sq(u, v);
    crate::arith::lemma_isqrt_props(s as nat);
    let n = isqrt_spec(s as nat) as int;
    assert(n * n <= s);
    assert(s < (n + 1) * (n + 1));
    assert(n >= 1000) by (nonlinear_arith)
        requires
            n >= 0,
            s >= 1_000_000,
            s < (n + 1) * (n + 1);
    assert(-n <= u <= n && -n <= v <= n) by (nonlinear_arith)
        requires
            n >= 0,
            s == u * u + v * v,
            s < (n + 1) * (n + 1);
    let a = rim_scaled(u, u, v);
    let b = rim_scaled(v, u, v);
    lemma_fundamental_div_mod(u * (UNIT as int), n);
    lemma_fundamental_div_mod(v * (UNIT as int), n);
    let ra = u * (UNIT as int) % n;
    let rb = v * (UNIT as int) % n;
    assert(u * (UNIT as int) == n * a + ra);
    assert(v * (UNIT as int) == n * b + rb);
    // Per-coordinate: square the division identity and bound the error terms.
    assert(n * n * (a * a) == (u * 1_000_000_000 - ra) * (u * 1_000_000_000 - ra))
        by (nonlinear_arith)
        requires
            u * 1_000_000_000 == n * a + ra;
    assert(n * n * (b * b) == (v * 1_000_000_000 - rb) * (v * 1_000_000_000 - rb))
        by (nonlinear_arith)
        requires
            v * 1_000_000_000 == n * b + rb;
    assert((u * 1_000_000_000 - ra) * (u * 1_000_000_000 - ra) <= u * u * 1_000_000_000
        * 1_000_000_000 + 2 * n * n * 1_000_000_000 + n * n) by (nonlinear_arith)
        requires
            -n <= u <= n,
            0 <= ra < n,
            n >= 1;
    assert((u * 1_000_000_000 - ra) * (u * 1_000_000_000 - ra) >= u * u * 1_000_000_000
        * 1_000_000_000 - 2 * n * n * 1_000_000_000) by (nonlinear_arith)
        requires
            -n <= u <= n,
            0 <= ra < n,
            n >= 1;
    assert((v * 1_000_000_000 - rb) * (v * 1_000_000_000 - rb) <= v * v * 1_000_000_000
        * 1_000_000_000 + 2 * n * n * 1_000_000_000 + n * n) by (nonlinear_arith)
        requires
            -n <= v <= n,
            0 <= rb < n,
            n >= 1;
    assert((v * 1_000_000_000 - rb) * (v * 1_000_000_000 - rb) >= v * v * 1_000_000_000
        * 1_000_000_000 - 2 * n * n * 1_000_000_000) by (nonlinear_arith)
        requires
            -n <= v <= n,
            0 <= rb < n,
            n >= 1;
    // Sum the two coordinates and divide out n * n.
    assert(n * n * (a * a + b * b) >= s * 1_000_000_000 * 1_000_000_000 - 4 * n * n
        * 1_000_000_000) by (nonlinear_arith)
        requires
            n * n * (a * a) >= u * u * 1_000_000_000 * 1_000_000_000 - 2 * n * n * 1_000_000_000,
            n * n * (b * b) >= v * v * 1_000_000_000 * 1_000_000_000 - 2 * n * n * 1_000_000_000,
            s == u * u + v * v;
    assert(n * n * (a * a + b * b) <= s * 1_000_000_000 * 1_000_000_000 + 4 * n * n
        * 1_000_000_000 + 2 * n * n) by (nonlinear_arith)
        requires
            n * n * (a * a) <= u * u * 1_000_000_000 * 1_000_000_000 + 2 * n * n * 1_000_000_000
                + n * n,
            n * n * (b * b) <= v * v * 1_000_000_000 * 1_000_000_000 + 2 * n * n * 1_000_000_000
                + n * n,
            s == u * u + v * v;
    assert(a * a + b * b >= 999_999_995_000_000_000) by (nonlinear_arith)
        requires
            n * n * (a * a + b * b) >= s * 1_000_000_000 * 1_000_000_000 - 4 * n * n
                * 1_000_000_000,
            s >= n * n,
            n >= 1;
    assert(s <= n * n + 2 * n) by (nonlinear_arith)
        requires
            s < (n + 1) * (n + 1);
    assert(a * a + b * b <= 1_003_000_000_000_000_000) by (nonlinear_arith)
        requires
            n * n * (a * a + b * b) <= s * 1_000_000_000 * 1_000_000_000 + 4 * n * n
                * 1_000_000_000 + 2 * n * n,
            s <= n * n + 2 * n,
            n >= 1000;
}

/// Map a unit-sphere point to a pixel position using an orthographic
/// projection looking along the camera-bearing axis: the point's `(y, z)`
/// components are the projection-plane coordinates. A point on the back
/// hemisphere is first pushed out to the visible rim (its plane coordinates
/// are normalized to the unit circle), so wrapped-around geometry collapses
/// onto the horizon instead of drawing chords across the globe. A back-
/// hemisphere point exactly on the view axis has no direction to normalize
/// and maps to the plane origin, the safe default.
pub fn orthographic_mapping_function(
    point: Point3D,
    frame: &MapFrame,
    camera_location: (i64, i64, i64),
) -> (r: ScreenPoint)
    requires
        point.wf(),
        frame.wf(),
        (Point3D { x: camera_location.0, y: camera_location.1, z: camera_location.2 }).cam_wf(),
    ensures
        point.visible_spec(
            camera_location.0 as int,
            camera_location.1 as int,
            camera_location.2 as int,
        ) ==> r.x == ortho_px(frame.cols as int, point.y as int) && r.y == ortho_py(
            frame.rows as int,
            point.z as int,
        ),
        !point.visible_spec(
            camera_location.0 as int,
            camera_location.1 as int,
            camera_location.2 as int,
        ) && rim_sq(point.y as int, point.z as int) == 0 ==> r.x == ortho_px(frame.cols as int, 0)
            && r.y == ortho_py(frame.rows as int, 0),
        !point.visible_spec(
            camera_location.0 as int,
            camera_location.1 as int,
            camera_location.2 as int,
        ) && rim_sq(point.y as int, point.z as int) > 0 ==> r.x == ortho_px(
            frame.cols as int,
            rim_scaled(point.y as int, point.y as int, point.z as int),
        ) && r.y == ortho_py(
            frame.rows as int,
            rim_scaled(point.z as int, point.y as int, point.z as int),
        ),
{
    let u = point.y;
    let v = point.z;
    let visible = point_visible_xyz((point.x, point.y, point.z), camera_location);
    if visible {
        ortho_scale(frame, u, v)
    } else {
        proof {
            lemma_mul_bound(u as int, u as int, VEC_MAX as int, VEC_MAX as int);
            lemma_mul_bound(v as int, v as int, VEC_MAX as int, VEC_MAX as int);
            assert(u as int * u as int >= 0 && v as int * v as int >= 0) by (nonlinear_arith);
        }
        let s: i128 = (u as i128) * (u as i128) + (v as i128) * (v as i128);
        if s == 0 {
            ortho_scale(frame, 0, 0)
        } else {
            let n: u64 = isqrt(s as u128);
            proof {
                assert(n >= 1) by (nonlinear_arith)
                    requires
                        (n as int + 1) * (n as int + 1) > s as int,
                        s >= 1,
                        n >= 0;
                assert(-(n as int) <= u as int <= n as int && -(n as int) <= v as int
                    <= n as int) by (nonlinear_arith)
                    requires
                        (n as int + 1) * (n as int + 1) > s as int,
                        s as int == u as int * u as int + v as int * v as int,
                        n >= 0;
                lemma_mul_bound(u as int, UNIT as int, VEC_MAX as int, UNIT as int);
                lemma_mul_bound(v as int, UNIT as int, VEC_MAX as int, UNIT as int);
                assert(-(UNIT as int * n as int) <= u as int * UNIT as int <= UNIT as int
                    * n as int && -(UNIT as int * n as int) <= v as int * UNIT as int
                    <= UNIT as int * n as int) by (nonlinear_arith)
                    requires
                        -(n as int) <= u as int <= n as int,
                        -(n as int) <= v as int <= n as int,
                        UNIT as int > 0;
                crate::arith::lemma_div_range(u as int * UNIT as int, UNIT as int, n as int);
                crate::arith::lemma_div_range(v as int * UNIT as int, UNIT as int, n as int);
            }
            let ru = div_floor((u as i128) * (UNIT as i128), n as i128);
            let rv = div_floor((v as i128) * (UNIT as i128), n as i128);
            ortho_scale(frame, ru as i64, rv as i64)
        }
    }
}

} // verus!
