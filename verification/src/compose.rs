//! The basemap composer: dispatches shape records through the assembler to
//! the renderer, draws the background, overlays the graticule grid and the
//! equator line, and keeps the layer order. A render is a single pass: the
//! background first, then each layer in style order, then the overlays.
//!
//! Opening and streaming shapefiles is I/O and lives with the caller; this
//! module consumes the decoded records one at a time, or a whole layer's
//! records at once, and appends drawing primitives to the output document.

use vstd::prelude::*;
use crate::assemble::{assemble_part_equirect, assemble_ring_equirect, in_frame, projected_part};
use crate::frame::MapFrame;
use crate::geom::{GeoPoint, ScreenPoint, ShapeRecord};
use crate::project::{equirect_x, equirect_y, project_equirectangular};
use crate::render::{
    doc_nodes,
    draw_point_with_label,
    draw_polygon,
    draw_polyline,
    point_label_prims,
    polygon_attrs,
    polyline_attrs,
    set_background,
    DocNode,
    PATH_NODE,
};
use crate::styles::{Layer, LayerStyle, Style};

verus! {

/// The primitive a polygon ring contributes: one filled path, or nothing for
/// an empty ring.
pub open spec fn ring_prim(f: MapFrame, st: LayerStyle, ring: Vec<GeoPoint>) -> Seq<DocNode> {
    if ring@.len() > 0 {
        seq![
            (
                PATH_NODE as int,
                polygon_attrs(st, projected_part(f, ring@)),
                Seq::<char>::empty(),
            ),
        ]
    } else {
        Seq::empty()
    }
}

/// The primitives of a polygon's rings, in ring order.
pub open spec fn polygon_prims(f: MapFrame, st: LayerStyle, rings: Seq<Vec<GeoPoint>>) -> Seq<
    DocNode,
>
    decreases rings.len(),
{
    if rings.len() == 0 {
        Seq::empty()
    } else {
        polygon_prims(f, st, rings.drop_last()) + ring_prim(f, st, rings.last())
    }
}

/// The primitive a polyline part contributes: one stroked path, or nothing
/// when no projected point lies within the frame's pixel rectangle.
pub open spec fn part_prim(f: MapFrame, st: LayerStyle, part: Vec<GeoPoint>) -> Seq<DocNode> {
    if exists|i: int|
        0 <= i < part@.len() && in_frame(f, #[trigger] projected_part(f, part@)[i]) {
        seq![
            (
                PATH_NODE as int,
                polyline_attrs(st, projected_part(f, part@)),
                Seq::<char>::empty(),
            ),
        ]
    } else {
        Seq::empty()
    }
}

/// The primitives of a polyline's parts, in part order.
pub open spec fn polyline_prims(f: MapFrame, st: LayerStyle, parts: Seq<Vec<GeoPoint>>) -> Seq<
    DocNode,
>
    decreases parts.len(),
{
    if parts.len() == 0 {
        Seq::empty()
    } else {
        polyline_prims(f, st, parts.drop_last()) + part_prim(f, st, parts.last())
    }
}

/// The primitives one shape record contributes to the document: its rings or
/// parts in order, a label for a point record, nothing for a multipoint.
pub open spec fn record_prims(f: MapFrame, st: LayerStyle, rec: ShapeRecord) -> Seq<DocNode> {
    match rec {
        ShapeRecord::Polygon { rings } => polygon_prims(f, st, rings@),
        ShapeRecord::Polyline { parts } => polyline_prims(f, st, parts@),
        ShapeRecord::Point { point, label } => point_label_prims(
            (equirect_x(f, point.lon as int), equirect_y(f, point.lat as int)),
            label@,
            st.fill@,
        ),
        ShapeRecord::Multipoint { .. } => Seq::empty(),
    }
}

/// Render one shape record: assemble each ring or part, drop what the culling
/// policy drops, and append one primitive per survivor. A point record is
/// drawn as its label at the projected position; a multipoint record, like a
/// record of any shape kind the pipeline does not draw, is skipped without
/// error.
pub fn render_record(
    map: &MapFrame,
    shape: &ShapeRecord,
    document: &mut svg::Document,
    layer_style: &LayerStyle,
)
    requires
        map.wf(),
        shape.wf(),
    ensures
        doc_nodes(*final(document)) == doc_nodes(*old(document)) + record_prims(
            *map,
            *layer_style,
            *shape,
        ),
{
    let ghost base = doc_nodes(*document);
    match shape {
        ShapeRecord::Polygon { rings } => {
            let mut i: usize = 0;
            proof {
                assert(rings@.take(0) =~= Seq::<Vec<GeoPoint>>::empty());
                assert(base + polygon_prims(*map, *layer_style, rings@.take(0)) =~= base);
            }
            while i < rings.len()
                invariant
                    map.wf(),
                    forall|k: int| 0 <= k < rings@.len() ==> crate::geom::part_wf((#[trigger] rings@[k])@),
                    i <= rings@.len(),
                    doc_nodes(*document) == base + polygon_prims(
                        *map,
                        *layer_style,
                        rings@.take(i as int),
                    ),
                decreases rings@.len() - i,
            {
                let assembled = assemble_ring_equirect(map, &rings[i]);
                match assembled {
                    Some(pts) => {
                        proof {
                            assert(crate::geom::screen_views(pts@).len() == pts@.len());
                        }
                        draw_polygon(&pts, document, layer_style);
                    },
                    None => {},
                }
                proof {
                    assert(rings@.take(i as int + 1).drop_last() =~= rings@.take(i as int));
                    assert(rings@.take(i as int + 1).last() == rings@[i as int]);
                    assert(doc_nodes(*document) =~= base + polygon_prims(
                        *map,
                        *layer_style,
                        rings@.take(i as int + 1),
                    ));
                }
                i = i + 1;
            }
            proof {
                assert(rings@.take(rings@.len() as int) =~= rings@);
            }
        },
        ShapeRecord::Polyline { parts } => {
            let mut i: usize = 0;
            proof {
                assert(parts@.take(0) =~= Seq::<Vec<GeoPoint>>::empty());
                assert(base + polyline_prims(*map, *layer_style, parts@.take(0)) =~= base);
            }
            while i < parts.len()
                invariant
                    map.wf(),
                    forall|k: int| 0 <= k < parts@.len() ==> crate::geom::part_wf((#[trigger] parts@[k])@),
                    i <= parts@.len(),
                    doc_nodes(*document) == base + polyline_prims(
                        *map,
                        *layer_style,
                        parts@.take(i as int),
                    ),
                decreases parts@.len() - i,
            {
                let assembled = assemble_part_equirect(map, &parts[i]);
                match assembled {
                    Some(pts) => {
                        proof {
                            assert(crate::geom::screen_views(pts@).len() == pts@.len());
                            assert(pts@.len() == parts@[i as int]@.len());
                        }
                        draw_polyline(&pts, document, layer_style);
                    },
                    None => {},
                }
                proof {
                    assert(parts@.take(i as int + 1).drop_last() =~= parts@.take(i as int));
                    assert(parts@.take(i as int + 1).last() == parts@[i as int]);
                    assert(doc_nodes(*document) =~= base + polyline_prims(
                        *map,
                        *layer_style,
                        parts@.take(i as int + 1),
                    ));
                }
                i = i + 1;
            }
            proof {
                assert(parts@.take(parts@.len() as int) =~= parts@);
            }
        },
        ShapeRecord::Point { point, label } => {
            let sp = project_equirectangular(*point, map);
            draw_point_with_label(sp, label.as_str(), document, layer_style);
        },
        ShapeRecord::Multipoint { .. } => {
            proof {
                assert(base + record_prims(*map, *layer_style, *shape) =~= base);
            }
        },
    }
}

/// Every record of the sequence is within the geographic range.
pub open spec fn records_wf(recs: Seq<ShapeRecord>) -> bool {
    forall|i: int| 0 <= i < recs.len() ==> (#[trigger] recs[i]).wf()
}

/// The primitives of a record sequence, in record order.
pub open spec fn records_prims(f: MapFrame, st: LayerStyle, recs: Seq<ShapeRecord>) -> Seq<DocNode>
    decreases recs.len(),
{
    if recs.len() == 0 {
        Seq::empty()
    } else {
        records_prims(f, st, recs.drop_last()) + record_prims(f, st, recs.last())
    }
}

/// Render the records of one shapefile layer in order with one style. Every
/// primitive of an earlier record stands in the document before every
/// primitive of a later one.
pub fn visualize_shapefile(
    map: &MapFrame,
    records: &Vec<ShapeRecord>,
    document: &mut svg::Document,
    layer_style: &LayerStyle,
)
    requires
        map.wf(),
        records_wf(records@),
    ensures
        doc_nodes(*final(document)) == doc_nodes(*old(document)) + records_prims(
            *map,
            *layer_style,
            records@,
        ),
{
    let ghost base = doc_nodes(*document);
    let mut i: usize = 0;
    proof {
        assert(records@.take(0) =~= Seq::<ShapeRecord>::empty());
        assert(base + records_prims(*map, *layer_style, records@.take(0)) =~= base);
    }
    while i < records.len()
        invariant
            map.wf(),
            records_wf(records@),
            i <= records@.len(),
            doc_nodes(*document) == base + records_prims(*map, *layer_style, records@.take(i as int)),
        decreases records@.len() - i,
    {
        render_record(map, &records[i], document, layer_style);
        proof {
            assert(records@.take(i as int + 1).drop_last() =~= records@.take(i as int));
            assert(records@.take(i as int + 1).last() == records@[i as int]);
            assert(doc_nodes(*document) =~= base + records_prims(
                *map,
                *layer_style,
                records@.take(i as int + 1),
            ));
        }
        i = i + 1;
    }
    proof {
        assert(records@.take(records@.len() as int) =~= records@);
    }
}

/// Longitude step between meridians and latitude step between parallels of
/// the graticule grid, in degrees.
pub const GRATICULE_STEP_DEG: i64 = 15;

/// The floor of the frame's south bound, in whole degrees.
pub open spec fn lat_floor_deg(f: MapFrame) -> int {
    f.lat_min as int / (crate::MICRODEG as int)
}

/// The ceiling of the frame's north bound, in whole degrees.
pub open spec fn lat_ceil_deg(f: MapFrame) -> int {
    crate::arith::ceil_div(f.lat_max as int, crate::MICRODEG as int)
}

/// The floor of the frame's west bound, in whole degrees.
pub open spec fn lon_floor_deg(f: MapFrame) -> int {
    f.lon_min as int / (crate::MICRODEG as int)
}

/// The ceiling of the frame's east bound, in whole degrees.
pub open spec fn lon_ceil_deg(f: MapFrame) -> int {
    crate::arith::ceil_div(f.lon_max as int, crate::MICRODEG as int)
}

/// The first `k` sample points of a meridian: a fixed longitude traced at one
/// degree of latitude per sample, starting at `lo_lat_deg`.
pub open spec fn meridian_pts(f: MapFrame, lon_udeg: int, lo_lat_deg: int, k: nat) -> Seq<
    (int, int),
>
    decreases k,
{
    if k == 0 {
        Seq::empty()
    } else {
        meridian_pts(f, lon_udeg, lo_lat_deg, (k - 1) as nat) + seq![
            (
                equirect_x(f, lon_udeg),
                equirect_y(f, (lo_lat_deg + k - 1) * (crate::MICRODEG as int)),
            ),
        ]
    }
}

/// Length and elements of `meridian_pts`.
proof fn lemma_meridian_pts_props(f: MapFrame, lon_udeg: int, lo_lat_deg: int, k: nat)
    ensures
        meridian_pts(f, lon_udeg, lo_lat_deg, k).len() == k,
        forall|t: int|
            0 <= t < k ==> meridian_pts(f, lon_udeg, lo_lat_deg, k)[t] == (
                equirect_x(f, lon_udeg),
                equirect_y(f, (lo_lat_deg + t) * (crate::MICRODEG as int)),
            ),
    decreases k,
{
    if k > 0 {
        lemma_meridian_pts_props(f, lon_udeg, lo_lat_deg, (k - 1) as nat);
    }
}

/// The first `k` sample points of a parallel: a fixed latitude traced at one
/// degree of longitude per sample, starting at `lo_lon_deg`.
pub open spec fn parallel_pts(f: MapFrame, lat_udeg: int, lo_lon_deg: int, k: nat) -> Seq<
    (int, int),
>
    decreases k,
{
    if k == 0 {
        Seq::empty()
    } else {
        parallel_pts(f, lat_udeg, lo_lon_deg, (k - 1) as nat) + seq![
            (
                equirect_x(f, (lo_lon_deg + k - 1) * (crate::MICRODEG as int)),
                equirect_y(f, lat_udeg),
            ),
        ]
    }
}

/// Length and elements of `parallel_pts`.
proof fn lemma_parallel_pts_props(f: MapFrame, lat_udeg: int, lo_lon_deg: int, k: nat)
    ensures
        parallel_pts(f, lat_udeg, lo_lon_deg, k).len() == k,
        forall|t: int|
            0 <= t < k ==> parallel_pts(f, lat_udeg, lo_lon_deg, k)[t] == (
                equirect_x(f, (lo_lon_deg + t) * (crate::MICRODEG as int)),
                equirect_y(f, lat_udeg),
            ),
    decreases k,
{
    if k > 0 {
        lemma_parallel_pts_props(f, lat_udeg, lo_lon_deg, (k - 1) as nat);
    }
}

/// The number of one-degree samples along a meridian of the frame.
pub open spec fn meridian_sample_count(f: MapFrame) -> nat {
    (lat_ceil_deg(f) - lat_floor_deg(f) + 1) as nat
}

/// The number of one-degree samples along a parallel of the frame.
pub open spec fn parallel_sample_count(f: MapFrame) -> nat {
    (lon_ceil_deg(f) - lon_floor_deg(f) + 1) as nat
}

/// The primitives of the first `k` meridians, west to east: one polyline per
/// fifteen degrees of longitude starting at 180 degrees west.
pub open spec fn meridians_prims(f: MapFrame, st: LayerStyle, k: nat) -> Seq<DocNode>
    decreases k,
{
    if k == 0 {
        Seq::empty()
    } else {
        meridians_prims(f, st, (k - 1) as nat) + seq![
            (
                PATH_NODE as int,
                polyline_attrs(
                    st,
                    meridian_pts(
                        f,
                        (-180 + 15 * (k - 1)) * (crate::MICRODEG as int),
                        lat_floor_deg(f),
                        meridian_sample_count(f),
                    ),
                ),
                Seq::<char>::empty(),
            ),
        ]
    }
}

/// The primitives of the first `k` parallels, south to north: one polyline
/// per fifteen degrees of latitude starting at 90 degrees south.
pub open spec fn parallels_prims(f: MapFrame, st: LayerStyle, k: nat) -> Seq<DocNode>
    decreases k,
{
    if k == 0 {
        Seq::empty()
    } else {
        parallels_prims(f, st, (k - 1) as nat) + seq![
            (
                PATH_NODE as int,
                polyline_attrs(
                    st,
                    parallel_pts(
                        f,
                        (-90 + 15 * (k - 1)) * (crate::MICRODEG as int),
                        lon_floor_deg(f),
                        parallel_sample_count(f),
                    ),
                ),
                Seq::<char>::empty(),
            ),
        ]
    }
}

/// The floor of the frame's south bound in whole degrees, as a value.
fn lat_floor_exec(map: &MapFrame) -> (r: i64)
    requires
        map.wf(),
    ensures
        r == lat_floor_deg(*map),
        -1000 <= r <= 1000,
{
    let q = crate::arith::div_floor(map.lat_min as i128, crate::MICRODEG as i128);
    proof {
        crate::arith::lemma_div_range(map.lat_min as int, 1000, crate::MICRODEG as int);
    }
    q as i64
}

/// The ceiling of the frame's north bound in whole degrees, as a value.
fn lat_ceil_exec(map: &MapFrame) -> (r: i64)
    requires
        map.wf(),
    ensures
        r == lat_ceil_deg(*map),
        -1000 <= r <= 1000,
{
    let q = crate::arith::div_floor(-(map.lat_max as i128), crate::MICRODEG as i128);
    proof {
        crate::arith::lemma_div_range(-(map.lat_max as int), 1000, crate::MICRODEG as int);
    }
    -(q as i64)
}

/// The floor of the frame's west bound in whole degrees, as a value.
fn lon_floor_exec(map: &MapFrame) -> (r: i64)
    requires
        map.wf(),
    ensures
        r == lon_floor_deg(*map),
        -1000 <= r <= 1000,
{
    let q = crate::arith::div_floor(map.lon_min as i128, crate::MICRODEG as i128);
    proof {
        crate::arith::lemma_div_range(map.lon_min as int, 1000, crate::MICRODEG as int);
    }
    q as i64
}

/// The ceiling of the frame's east bound in whole degrees, as a value.
fn lon_ceil_exec(map: &MapFrame) -> (r: i64)
    requires
        map.wf(),
    ensures
        r == lon_ceil_deg(*map),
        -1000 <= r <= 1000,
{
    let q = crate::arith::div_floor(-(map.lon_max as i128), crate::MICRODEG as i128);
    proof {
        crate::arith::lemma_div_range(-(map.lon_max as int), 1000, crate::MICRODEG as int);
    }
    -(q as i64)
}

/// Trace one meridian: the fixed longitude sampled at one degree of latitude
/// from the frame's floored south bound to its ceiled north bound.
fn trace_meridian(map: &MapFrame, lon_deg: i64) -> (out: Vec<ScreenPoint>)
    requires
        map.wf(),
        -180 <= lon_deg <= 180,
    ensures
        crate::geom::screen_views(out@) == meridian_pts(
            *map,
            lon_deg as int * (crate::MICRODEG as int),
            lat_floor_deg(*map),
            meridian_sample_count(*map),
        ),
        out@.len() > 0,
{
    let lo = lat_floor_exec(map);
    let hi = lat_ceil_exec(map);
    proof {
        crate::arith::lemma_div_is_ordered_general(
            map.lat_min as int,
            map.lat_max as int,
            crate::MICRODEG as int,
        );
    }
    let lon_udeg = lon_deg * crate::MICRODEG;
    let mut out: Vec<ScreenPoint> = Vec::new();
    let mut t: i64 = 0;
    while t <= hi - lo
        invariant
            map.wf(),
            -180 <= lon_deg <= 180,
            lon_udeg == lon_deg * crate::MICRODEG,
            lo == lat_floor_deg(*map),
            hi == lat_ceil_deg(*map),
            -1000 <= lo <= hi <= 1000,
            0 <= t <= hi - lo + 1,
            out@.len() == t,
            forall|q: int|
                0 <= q < t ==> (#[trigger] out@[q]).x == equirect_x(
                    *map,
                    lon_udeg as int,
                ) && out@[q].y == equirect_y(*map, (lo + q) * (crate::MICRODEG as int)),
        decreases hi - lo + 1 - t,
    {
        let p = GeoPoint { lon: lon_udeg, lat: (lo + t) * crate::MICRODEG };
        let sp = project_equirectangular(p, map);
        out.push(sp);
        t = t + 1;
    }
    proof {
        lemma_meridian_pts_props(
            *map,
            lon_udeg as int,
            lo as int,
            meridian_sample_count(*map),
        );
        assert(crate::geom::screen_views(out@) =~= meridian_pts(
            *map,
            lon_udeg as int,
            lo as int,
            meridian_sample_count(*map),
        ));
    }
    out
}

/// Trace one parallel: the fixed latitude sampled at one degree of longitude
/// from the frame's floored west bound to its ceiled east bound.
fn trace_parallel(map: &MapFrame, lat_deg: i64) -> (out: Vec<ScreenPoint>)
    requires
        map.wf(),
        -90 <= lat_deg <= 90,
    ensures
        crate::geom::screen_views(out@) == parallel_pts(
            *map,
            lat_deg as int * (crate::MICRODEG as int),
            lon_floor_deg(*map),
            parallel_sample_count(*map),
        ),
        out@.len() > 0,
{
    let lo = lon_floor_exec(map);
    let hi = lon_ceil_exec(map);
    proof {
        crate::arith::lemma_div_is_ordered_general(
            map.lon_min as int,
            map.lon_max as int,
            crate::MICRODEG as int,
        );
    }
    let lat_udeg = lat_deg * crate::MICRODEG;
    let mut out: Vec<ScreenPoint> = Vec::new();
    let mut t: i64 = 0;
    while t <= hi - lo
        invariant
            map.wf(),
            -90 <= lat_deg <= 90,
            lat_udeg == lat_deg * crate::MICRODEG,
            lo == lon_floor_deg(*map),
            hi == lon_ceil_deg(*map),
            -1000 <= lo <= hi <= 1000,
            0 <= t <= hi - lo + 1,
            out@.len() == t,
            forall|q: int|
                0 <= q < t ==> (#[trigger] out@[q]).x == equirect_x(
                    *map,
                    (lo + q) * (crate::MICRODEG as int),
                ) && out@[q].y == equirect_y(*map, lat_udeg as int),
        decreases hi - lo + 1 - t,
    {
        let p = GeoPoint { lon: (lo + t) * crate::MICRODEG, lat: lat_udeg };
        let sp = project_equirectangular(p, map);
        out.push(sp);
        t = t + 1;
    }
    proof {
        lemma_parallel_pts_props(
            *map,
            lat_udeg as int,
            lo as int,
            parallel_sample_count(*map),
        );
        assert(crate::geom::screen_views(out@) =~= parallel_pts(
            *map,
            lat_udeg as int,
            lo as int,
            parallel_sample_count(*map),
        ));
    }
    out
}

/// Draws the graticule grid: meridians every fifteen degrees of longitude
/// from 180 west to 180 east, then parallels every fifteen degrees of
/// latitude from 90 south to 90 north, each traced as a polyline of projected
/// points at one-degree sampling resolution along the opposite axis.
pub fn draw_graticules(map: &MapFrame, document: &mut svg::Document, graticule_style: &LayerStyle)
    requires
        map.wf(),
    ensures
        doc_nodes(*final(document)) == doc_nodes(*old(document)) + meridians_prims(
            *map,
            *graticule_style,
            25,
        ) + parallels_prims(*map, *graticule_style, 13),
{
    let ghost base = doc_nodes(*document);
    let mut k: i64 = 0;
    while k < 25
        invariant
            map.wf(),
            0 <= k <= 25,
            doc_nodes(*document) == base + meridians_prims(*map, *graticule_style, k as nat),
        decreases 25 - k,
    {
        let pts = trace_meridian(map, -180 + GRATICULE_STEP_DEG * k);
        draw_polyline(&pts, document, graticule_style);
        proof {
            assert(doc_nodes(*document) =~= base + meridians_prims(
                *map,
                *graticule_style,
                (k + 1) as nat,
            ));
        }
        k = k + 1;
    }
    let ghost mid = doc_nodes(*document);
    let mut k: i64 = 0;
    while k < 13
        invariant
            map.wf(),
            0 <= k <= 13,
            mid == base + meridians_prims(*map, *graticule_style, 25),
            doc_nodes(*document) == mid + parallels_prims(*map, *graticule_style, k as nat),
        decreases 13 - k,
    {
        let pts = trace_parallel(map, -90 + GRATICULE_STEP_DEG * k);
        draw_polyline(&pts, document, graticule_style);
        proof {
            assert(doc_nodes(*document) =~= mid + parallels_prims(
                *map,
                *graticule_style,
                (k + 1) as nat,
            ));
        }
        k = k + 1;
    }
    proof {
        assert(doc_nodes(*document) =~= base + meridians_prims(*map, *graticule_style, 25)
            + parallels_prims(*map, *graticule_style, 13));
    }
}

/// The primitive of the equator line: one polyline tracing latitude zero
/// across the frame at one-degree sampling.
pub open spec fn equator_prim(f: MapFrame, st: LayerStyle) -> Seq<DocNode> {
    seq![
        (
            PATH_NODE as int,
            polyline_attrs(st, parallel_pts(f, 0, lon_floor_deg(f), parallel_sample_count(f))),
            Seq::<char>::empty(),
        ),
    ]
}

/// Draws the equator line: latitude zero traced as a polyline across the
/// frame.
pub fn draw_equator(map: &MapFrame, document: &mut svg::Document, equator_style: &LayerStyle)
    requires
        map.wf(),
    ensures
        doc_nodes(*final(document)) == doc_nodes(*old(document)) + equator_prim(
            *map,
            *equator_style,
        ),
{
    let pts = trace_parallel(map, 0);
    draw_polyline(&pts, document, equator_style);
    proof {
        assert(doc_nodes(*document) =~= doc_nodes(*old(document)) + equator_prim(
            *map,
            *equator_style,
        ));
    }
}

/// Every record of every layer is within the geographic range.
pub open spec fn layer_records_wf(layers: Seq<Vec<ShapeRecord>>) -> bool {
    forall|i: int| 0 <= i < layers.len() ==> records_wf((#[trigger] layers[i])@)
}

/// The primitives of the given layers in order: for each layer, the
/// primitives of its records under its style.
pub open spec fn layers_prims(f: MapFrame, layers: Seq<Layer>, recs: Seq<Vec<ShapeRecord>>) -> Seq<
    DocNode,
>
    decreases layers.len(),
{
    if layers.len() == 0 {
        Seq::empty()
    } else {
        layers_prims(f, layers.drop_last(), recs.drop_last()) + records_prims(
            f,
            layers.last().layer_style,
            recs.last()@,
        )
    }
}

/// Draws the complete basemap: the background rectangle first, then each
/// layer's records in style order. The render is a single pass with no
/// backward transitions: every primitive of an earlier layer stands in the
/// document before every primitive of a later one.
pub fn draw_basemap(
    map: &MapFrame,
    document: &mut svg::Document,
    style: &Style,
    layer_records: &Vec<Vec<ShapeRecord>>,
)
    requires
        map.wf(),
        layer_records@.len() == style.layers@.len(),
        layer_records_wf(layer_records@),
    ensures
        doc_nodes(*final(document)) == doc_nodes(*old(document)) + seq![
            (
                PATH_NODE as int,
                crate::render::background_attrs(*map, style.background),
                Seq::<char>::empty(),
            ),
        ] + layers_prims(*map, style.layers@, layer_records@),
{
    let ghost base = doc_nodes(*document);
    set_background(map, document, &style.background);
    let ghost bg = doc_nodes(*document);
    let mut i: usize = 0;
    proof {
        assert(style.layers@.take(0) =~= Seq::<Layer>::empty());
        assert(layer_records@.take(0) =~= Seq::<Vec<ShapeRecord>>::empty());
        assert(bg + layers_prims(*map, style.layers@.take(0), layer_records@.take(0)) =~= bg);
    }
    while i < layer_records.len()
        invariant
            map.wf(),
            layer_records@.len() == style.layers@.len(),
            layer_records_wf(layer_records@),
            i <= layer_records@.len(),
            doc_nodes(*document) == bg + layers_prims(
                *map,
                style.layers@.take(i as int),
                layer_records@.take(i as int),
            ),
        decreases layer_records@.len() - i,
    {
        visualize_shapefile(map, &layer_records[i], document, &style.layers[i].layer_style);
        proof {
            assert(style.layers@.take(i as int + 1).drop_last() =~= style.layers@.take(i as int));
            assert(layer_records@.take(i as int + 1).drop_last() =~= layer_records@.take(
                i as int,
            ));
            assert(style.layers@.take(i as int + 1).last() == style.layers@[i as int]);
            assert(layer_records@.take(i as int + 1).last() == layer_records@[i as int]);
            assert(doc_nodes(*document) =~= bg + layers_prims(
                *map,
                style.layers@.take(i as int + 1),
                layer_records@.take(i as int + 1),
            ));
        }
        i = i + 1;
    }
    proof {
        assert(style.layers@.take(style.layers@.len() as int) =~= style.layers@);
        assert(layer_records@.take(layer_records@.len() as int) =~= layer_records@);
        assert(doc_nodes(*document) =~= base + seq![
            (
                PATH_NODE as int,
                crate::render::background_attrs(*map, style.background),
                Seq::<char>::empty(),
            ),
        ] + layers_prims(*map, style.layers@, layer_records@));
    }
}

/// Layer order preservation: when a render appends one layer's primitives and
/// then another's, every primitive of the first layer stands in the document
/// before every primitive of the second, whatever each layer's feature count.
pub proof fn lemma_layer_order(base: Seq<DocNode>, first: Seq<DocNode>, second: Seq<DocNode>)
    ensures
        forall|i: int|
            0 <= i < first.len() ==> (base + first + second)[base.len() + i] == first[i],
        forall|j: int|
            0 <= j < second.len() ==> (base + first + second)[base.len() + first.len() + j]
                == second[j],
{
}

} // verus!
