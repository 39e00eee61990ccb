//! Geometry assembly: one shape ring or part in, zero or one screen-space
//! point sequence out, applying projection and the culling policy.
//!
//! Equirectangular mode projects every vertex; a polyline part whose
//! projected points all fall outside the frame's pixel rectangle is dropped,
//! while polygon rings are kept unconditionally (an ocean ring legitimately
//! surrounds the whole frame). Orthographic mode walks the vertices with a
//! gap flag: visible vertices are projected and kept in order, and a run of
//! back-hemisphere vertices collapses into the single rim-clamped projection
//! of its first vertex rather than one point per invisible vertex. A ring or
//! part with fewer than four surviving points is dropped.

use vstd::prelude::*;
use crate::frame::MapFrame;
use crate::geom::{lemma_screen_views_push, part_wf, screen_views, GeoPoint, Point3D, ScreenPoint};
use crate::project::{
    equirect_x,
    equirect_y,
    ortho_px,
    ortho_py,
    orthographic_mapping_function,
    project_equirectangular,
    rim_scaled,
    rim_sq,
};

verus! {

/// The projected image of a vertex sequence under the equirectangular
/// projection, in vertex order.
pub open spec fn projected_part(f: MapFrame, pts: Seq<GeoPoint>) -> Seq<(int, int)> {
    pts.map_values(|p: GeoPoint| (equirect_x(f, p.lon as int), equirect_y(f, p.lat as int)))
}

/// A projected point lies within the frame's pixel rectangle.
pub open spec fn in_frame(f: MapFrame, sp: (int, int)) -> bool {
    0 <= sp.0 <= f.cols && 0 <= sp.1 <= f.rows
}

/// Assemble one polygon ring under the equirectangular projection: every
/// vertex is projected; only an empty ring is dropped. Rings are not culled
/// against the frame: a ring larger than the frame still fills it.
pub fn assemble_ring_equirect(frame: &MapFrame, ring: &Vec<GeoPoint>) -> (r: Option<
    Vec<ScreenPoint>,
>)
    requires
        frame.wf(),
        part_wf(ring@),
    ensures
        r is Some <==> ring@.len() > 0,
        r is Some ==> screen_views(r->0@) == projected_part(*frame, ring@),
{
    if ring.len() == 0 {
        return None;
    }
    let mut out: Vec<ScreenPoint> = Vec::new();
    let mut i: usize = 0;
    while i < ring.len()
        invariant
            frame.wf(),
            part_wf(ring@),
            i <= ring@.len(),
            out@.len() == i,
            forall|k: int|
                0 <= k < i ==> (#[trigger] out@[k]).x == equirect_x(*frame, ring@[k].lon as int)
                    && out@[k].y == equirect_y(*frame, ring@[k].lat as int),
        decreases ring@.len() - i,
    {
        let sp = project_equirectangular(ring[i], frame);
        out.push(sp);
        i = i + 1;
    }
    proof {
        assert(screen_views(out@) =~= projected_part(*frame, ring@));
    }
    Some(out)
}

/// Assemble one polyline part under the equirectangular projection: every
/// vertex is projected; the part is dropped when no projected point lies
/// within the frame's pixel rectangle (an empty part has none).
pub fn assemble_part_equirect(frame: &MapFrame, part: &Vec<GeoPoint>) -> (r: Option<
    Vec<ScreenPoint>,
>)
    requires
        frame.wf(),
        part_wf(part@),
    ensures
        r is Some <==> exists|i: int|
            0 <= i < part@.len() && in_frame(*frame, #[trigger] projected_part(*frame, part@)[i]),
        r is Some ==> screen_views(r->0@) == projected_part(*frame, part@),
{
    let mut out: Vec<ScreenPoint> = Vec::new();
    let mut any_inside: bool = false;
    let mut i: usize = 0;
    while i < part.len()
        invariant
            frame.wf(),
            part_wf(part@),
            i <= part@.len(),
            out@.len() == i,
            forall|k: int|
                0 <= k < i ==> (#[trigger] out@[k]).x == equirect_x(*frame, part@[k].lon as int)
                    && out@[k].y == equirect_y(*frame, part@[k].lat as int),
            any_inside <==> exists|j: int|
                0 <= j < i && in_frame(*frame, #[trigger] projected_part(*frame, part@)[j]),
        decreases part@.len() - i,
    {
        let sp = project_equirectangular(part[i], frame);
        proof {
            assert(projected_part(*frame, part@)[i as int] == (
                equirect_x(*frame, part@[i as int].lon as int),
                equirect_y(*frame, part@[i as int].lat as int),
            ));
        }
        if 0 <= sp.x && sp.x <= frame.cols && 0 <= sp.y && sp.y <= frame.rows {
            any_inside = true;
        }
        out.push(sp);
        i = i + 1;
    }
    if any_inside {
        proof {
            assert(screen_views(out@) =~= projected_part(*frame, part@));
        }
        Some(out)
    } else {
        None
    }
}

/// The orthographic projection of one vertex, as the projector defines it:
/// plane coordinates `(y, z)`, back-hemisphere points clamped to the rim, a
/// back-hemisphere point on the view axis sent to the plane origin.
pub open spec fn ortho_point(f: MapFrame, p: Point3D, cx: int, cy: int, cz: int) -> (int, int) {
    if p.visible_spec(cx, cy, cz) {
        (ortho_px(f.cols as int, p.y as int), ortho_py(f.rows as int, p.z as int))
    } else if rim_sq(p.y as int, p.z as int) == 0 {
        (ortho_px(f.cols as int, 0), ortho_py(f.rows as int, 0))
    } else {
        (
            ortho_px(f.cols as int, rim_scaled(p.y as int, p.y as int, p.z as int)),
            ortho_py(f.rows as int, rim_scaled(p.z as int, p.y as int, p.z as int)),
        )
    }
}

/// The surviving projected points of a vertex run under orthographic culling.
/// Visible vertices are kept in order; at a transition from visible to not
/// visible the first invisible vertex is kept (its projection lies on the
/// rim) and the rest of the invisible run is skipped. `gap` records whether
/// the previous vertex was invisible.
pub open spec fn cull_ortho(
    f: MapFrame,
    pts: Seq<Point3D>,
    cx: int,
    cy: int,
    cz: int,
    gap: bool,
) -> Seq<(int, int)>
    decreases pts.len(),
{
    if pts.len() == 0 {
        Seq::empty()
    } else {
        let p = pts[0];
        let rest = pts.subrange(1, pts.len() as int);
        if p.visible_spec(cx, cy, cz) {
            seq![ortho_point(f, p, cx, cy, cz)] + cull_ortho(f, rest, cx, cy, cz, false)
        } else if !gap {
            seq![ortho_point(f, p, cx, cy, cz)] + cull_ortho(f, rest, cx, cy, cz, true)
        } else {
            cull_ortho(f, rest, cx, cy, cz, true)
        }
    }
}

/// Every vertex of the sequence is within the sphere-point range.
pub open spec fn sphere_part_wf(pts: Seq<Point3D>) -> bool {
    forall|i: int| 0 <= i < pts.len() ==> (#[trigger] pts[i]).wf()
}

/// Assemble one ring or part of unit-sphere vertices under the orthographic
/// projection with visibility culling. A sequence with fewer than four
/// surviving points is dropped: a triangle is the smallest polygon this
/// pipeline treats as worth drawing, so nothing smaller is ever forwarded to
/// the renderer.
pub fn assemble_ortho(frame: &MapFrame, camera: (i64, i64, i64), pts: &Vec<Point3D>) -> (r: Option<
    Vec<ScreenPoint>,
>)
    requires
        frame.wf(),
        (Point3D { x: camera.0, y: camera.1, z: camera.2 }).cam_wf(),
        sphere_part_wf(pts@),
    ensures
        ({
            let culled = cull_ortho(
                *frame,
                pts@,
                camera.0 as int,
                camera.1 as int,
                camera.2 as int,
                false,
            );
            &&& (r is Some <==> culled.len() >= 4)
            &&& (r is Some ==> screen_views(r->0@) == culled)
        }),
{
    let ghost cx = camera.0 as int;
    let ghost cy = camera.1 as int;
    let ghost cz = camera.2 as int;
    let ghost full = cull_ortho(*frame, pts@, camera.0 as int, camera.1 as int, camera.2 as int, false);
    let mut out: Vec<ScreenPoint> = Vec::new();
    let mut gap: bool = false;
    let mut i: usize = 0;
    proof {
        assert(pts@.subrange(0, pts@.len() as int) =~= pts@);
        assert(screen_views(out@) =~= Seq::<(int, int)>::empty());
        assert(full =~= screen_views(out@) + cull_ortho(
            *frame,
            pts@.subrange(0, pts@.len() as int),
            cx,
            cy,
            cz,
            false,
        ));
    }
    while i < pts.len()
        invariant
            frame.wf(),
            (Point3D { x: camera.0, y: camera.1, z: camera.2 }).cam_wf(),
            sphere_part_wf(pts@),
            i <= pts@.len(),
            cx == camera.0 as int && cy == camera.1 as int && cz == camera.2 as int,
            full == cull_ortho(*frame, pts@, cx, cy, cz, false),
            full =~= screen_views(out@) + cull_ortho(
                *frame,
                pts@.subrange(i as int, pts@.len() as int),
                cx,
                cy,
                cz,
                gap,
            ),
        decreases pts@.len() - i,
    {
        let p = pts[i];
        let ghost rest = pts@.subrange(i as int, pts@.len() as int);
        let ghost rest1 = pts@.subrange(i as int + 1, pts@.len() as int);
        let ghost prev_views = screen_views(out@);
        let ghost prev_gap = gap;
        proof {
            assert(rest.len() > 0);
            assert(rest[0] == pts@[i as int]);
            assert(rest.subrange(1, rest.len() as int) =~= rest1);
        }
        let visible = crate::geom::point_visible_xyz((p.x, p.y, p.z), camera);
        if visible {
            let sp = orthographic_mapping_function(p, frame, camera);
            proof {
                assert((sp.x as int, sp.y as int) == ortho_point(*frame, p, cx, cy, cz));
                assert(cull_ortho(*frame, rest, cx, cy, cz, prev_gap) =~= seq![
                    ortho_point(*frame, p, cx, cy, cz),
                ] + cull_ortho(*frame, rest1, cx, cy, cz, false));
            }
            out.push(sp);
            gap = false;
            proof {
                lemma_screen_views_push(out@.drop_last(), sp);
                assert(out@.drop_last() =~= out@.subrange(0, out@.len() - 1));
                assert(full =~= screen_views(out@) + cull_ortho(
                    *frame,
                    rest1,
                    cx,
                    cy,
                    cz,
                    false,
                ));
            }
        } else if !gap {
            let sp = orthographic_mapping_function(p, frame, camera);
            proof {
                assert(rim_sq(p.y as int, p.z as int) >= 0) by (nonlinear_arith);
                assert((sp.x as int, sp.y as int) == ortho_point(*frame, p, cx, cy, cz));
                assert(cull_ortho(*frame, rest, cx, cy, cz, prev_gap) =~= seq![
                    ortho_point(*frame, p, cx, cy, cz),
                ] + cull_ortho(*frame, rest1, cx, cy, cz, true));
            }
            out.push(sp);
            gap = true;
            proof {
                lemma_screen_views_push(out@.drop_last(), sp);
                assert(full =~= screen_views(out@) + cull_ortho(*frame, rest1, cx, cy, cz, true));
            }
        } else {
            gap = true;
            proof {
                assert(cull_ortho(*frame, rest, cx, cy, cz, prev_gap) =~= cull_ortho(
                    *frame,
                    rest1,
                    cx,
                    cy,
                    cz,
                    true,
                ));
            }
        }
        i = i + 1;
    }
    proof {
        assert(pts@.subrange(pts@.len() as int, pts@.len() as int) =~= Seq::<Point3D>::empty());
        assert(full =~= screen_views(out@));
        assert(full.len() == out@.len());
    }
    if out.len() < 4 {
        None
    } else {
        Some(out)
    }
}

} // verus!
