//! The layer renderer: turns screen-space point sequences plus a layer style
//! into drawing primitives appended to the output vector document.
//!
//! The document lives in the `svg` crate; this module's contracts model it as
//! the ordered sequence of its appended nodes, each node its attribute map
//! and (for text nodes) its content. Path geometry is written as the `d`
//! attribute string, built and specified here down to the character.

use vstd::prelude::*;
use vstd::string::{StrSliceExecFns, StringExecFns};
use svg::Node;
use crate::decimal::{dec_str, i64_dec_string, int_str, u64_dec_string};
use crate::frame::MapFrame;
use crate::geom::{screen_views, ScreenPoint};
use crate::styles::{Layer, LayerStyle};

verus! {

/// A node of the output document: its kind (`PATH_NODE` or `TEXT_NODE`), its
/// attribute map, and its text content (empty for paths).
pub type DocNode = (int, Map<Seq<char>, Seq<char>>, Seq<char>);

/// Node kind of a path element.
pub const PATH_NODE: i64 = 0;

/// Node kind of a text element.
pub const TEXT_NODE: i64 = 1;

/// Node kind of a circle element.
pub const CIRCLE_NODE: i64 = 2;

/// Radius of the marker drawn for a point record, in pixels.
pub const POINT_MARKER_RADIUS: u32 = 3;

/// Vertical offset of a point label above its marker, in pixels.
pub const LABEL_OFFSET: i64 = 10;

#[verifier::external_type_specification]
#[verifier::external_body]
pub struct ExSvgDocument(svg::node::element::SVG);

#[verifier::external_type_specification]
#[verifier::external_body]
pub struct ExSvgPath(svg::node::element::Path);

#[verifier::external_type_specification]
#[verifier::external_body]
pub struct ExSvgText(svg::node::element::Text);

#[verifier::external_type_specification]
#[verifier::external_body]
pub struct ExSvgCircle(svg::node::element::Circle);

/// The attribute map of a path element: each `set` call stores the value
/// string under the attribute name.
pub uninterp spec fn path_attrs(p: svg::node::element::Path) -> Map<Seq<char>, Seq<char>>;

/// The attribute map of a text element.
pub uninterp spec fn text_attrs(t: svg::node::element::Text) -> Map<Seq<char>, Seq<char>>;

/// The character content of a text element.
pub uninterp spec fn text_content(t: svg::node::element::Text) -> Seq<char>;

/// The attribute map of a circle element.
pub uninterp spec fn circle_attrs(c: svg::node::element::Circle) -> Map<Seq<char>, Seq<char>>;

/// The ordered sequence of nodes appended to a document.
pub uninterp spec fn doc_nodes(d: svg::Document) -> Seq<DocNode>;

/// The empty attribute map of a freshly created element.
pub open spec fn no_attrs() -> Map<Seq<char>, Seq<char>> {
    Map::empty()
}

/// Relies on svg's `Path::new`: a fresh path element has no attributes.
#[verifier::external_body]
fn path_new() -> (p: svg::node::element::Path)
    ensures
        path_attrs(p) == no_attrs(),
{
    svg::node::element::Path::new()
}

/// Relies on svg's `Path::set`: assigning an attribute inserts the value
/// string under the name into the element's attribute map, verbatim.
#[verifier::external_body]
fn path_set(p: svg::node::element::Path, name: &str, value: &str) -> (r: svg::node::element::Path)
    ensures
        path_attrs(r) == path_attrs(p).insert(name@, value@),
{
    p.set(name, value)
}

/// Relies on svg's `Text::new`: a fresh text element has no attributes and
/// carries the given content.
#[verifier::external_body]
fn text_new(content: &str) -> (r: svg::node::element::Text)
    ensures
        text_attrs(r) == no_attrs(),
        text_content(r) == content@,
{
    svg::node::element::Text::new(content)
}

/// Relies on svg's `Text::set`: assigning an attribute inserts the value
/// string under the name into the element's attribute map, verbatim; the
/// content is untouched.
#[verifier::external_body]
fn text_set(t: svg::node::element::Text, name: &str, value: &str) -> (r: svg::node::element::Text)
    ensures
        text_attrs(r) == text_attrs(t).insert(name@, value@),
        text_content(r) == text_content(t),
{
    t.set(name, value)
}

/// Relies on svg's `Node::append`: the path is pushed onto the end of the
/// document's child list, after every node appended before it.
#[verifier::external_body]
fn doc_append_path(doc: &mut svg::Document, p: svg::node::element::Path)
    ensures
        doc_nodes(*final(doc)) == doc_nodes(*old(doc)).push(
            (PATH_NODE as int, path_attrs(p), Seq::<char>::empty()),
        ),
{
    doc.append(p);
}

/// Relies on svg's `Node::append`: the text element is pushed onto the end of
/// the document's child list, after every node appended before it.
#[verifier::external_body]
fn doc_append_text(doc: &mut svg::Document, t: svg::node::element::Text)
    ensures
        doc_nodes(*final(doc)) == doc_nodes(*old(doc)).push(
            (TEXT_NODE as int, text_attrs(t), text_content(t)),
        ),
{
    doc.append(t);
}

/// Relies on svg's `Circle::new`: a fresh circle element has no attributes.
#[verifier::external_body]
fn circle_new() -> (c: svg::node::element::Circle)
    ensures
        circle_attrs(c) == no_attrs(),
{
    svg::node::element::Circle::new()
}

/// Relies on svg's `Circle::set`: assigning an attribute inserts the value
/// string under the name into the element's attribute map, verbatim.
#[verifier::external_body]
fn circle_set(c: svg::node::element::Circle, name: &str, value: &str) -> (r:
    svg::node::element::Circle)
    ensures
        circle_attrs(r) == circle_attrs(c).insert(name@, value@),
{
    c.set(name, value)
}

/// Relies on svg's `Node::append`: the circle is pushed onto the end of the
/// document's child list, after every node appended before it.
#[verifier::external_body]
fn doc_append_circle(doc: &mut svg::Document, c: svg::node::element::Circle)
    ensures
        doc_nodes(*final(doc)) == doc_nodes(*old(doc)).push(
            (CIRCLE_NODE as int, circle_attrs(c), Seq::<char>::empty()),
        ),
{
    doc.append(c);
}

/// The path-data string of a point sequence: a move to the first point, then
/// a line to each following point. The renderer never closes the path in the
/// data; a filled path is closed by the document semantics, so polygons
/// connect their last point back to their first.
pub open spec fn path_d(pts: Seq<(int, int)>) -> Seq<char>
    decreases pts.len(),
{
    if pts.len() == 0 {
        Seq::empty()
    } else if pts.len() == 1 {
        seq!['M'] + int_str(pts[0].0) + seq![' '] + int_str(pts[0].1)
    } else {
        path_d(pts.drop_last()) + seq![' ', 'L'] + int_str(pts.last().0) + seq![' ']
            + int_str(pts.last().1)
    }
}

/// Build the path-data string of a point sequence.
fn path_d_string(pts: &Vec<ScreenPoint>) -> (s: String)
    ensures
        s@ == path_d(screen_views(pts@)),
{
    let mut s = String::new();
    let mut i: usize = 0;
    proof {
        assert(screen_views(pts@).take(0) =~= Seq::<(int, int)>::empty());
    }
    while i < pts.len()
        invariant
            i <= pts@.len(),
            s@ == path_d(screen_views(pts@).take(i as int)),
        decreases pts@.len() - i,
    {
        if i == 0 {
            s.append("M");
        } else {
            s.append(" L");
        }
        let xs = i64_dec_string(pts[i].x);
        s.append(xs.as_str());
        s.append(" ");
        let ys = i64_dec_string(pts[i].y);
        s.append(ys.as_str());
        proof {
            reveal_strlit("M");
            reveal_strlit(" L");
            reveal_strlit(" ");
            assert("M"@ =~= seq!['M']);
            assert(" L"@ =~= seq![' ', 'L']);
            assert(" "@ =~= seq![' ']);
            assert(screen_views(pts@).take(i as int + 1).drop_last() =~= screen_views(
                pts@,
            ).take(i as int));
            assert(screen_views(pts@).take(i as int + 1).last() == (
                pts@[i as int].x as int,
                pts@[i as int].y as int,
            ));
            assert(s@ =~= path_d(screen_views(pts@).take(i as int + 1)));
        }
        i = i + 1;
    }
    proof {
        assert(screen_views(pts@).take(pts@.len() as int) =~= screen_views(pts@));
    }
    s
}

/// The attribute map of a filled polygon path: fill, fill opacity, stroke and
/// stroke width taken verbatim from the style, and the path data of the
/// points.
pub open spec fn polygon_attrs(st: LayerStyle, pts: Seq<(int, int)>) -> Map<Seq<char>, Seq<char>> {
    Map::<Seq<char>, Seq<char>>::empty().insert("fill"@, st.fill@).insert(
        "fill-opacity"@,
        st.fill_opacity@,
    ).insert("stroke"@, st.stroke@).insert("stroke-width"@, st.stroke_width@).insert(
        "d"@,
        path_d(pts),
    )
}

/// The attribute map of an open polyline path: as for a polygon, plus round
/// line joins, which prevent visual spikes on sharp coastline and river
/// bends.
pub open spec fn polyline_attrs(st: LayerStyle, pts: Seq<(int, int)>) -> Map<
    Seq<char>,
    Seq<char>,
> {
    Map::<Seq<char>, Seq<char>>::empty().insert("fill"@, st.fill@).insert(
        "fill-opacity"@,
        st.fill_opacity@,
    ).insert("stroke"@, st.stroke@).insert("stroke-width"@, st.stroke_width@).insert(
        "stroke-linejoin"@,
        "round"@,
    ).insert("d"@, path_d(pts))
}

/// Draws a polygon as a closed filled path appended to the document.
pub fn draw_polygon(pts: &Vec<ScreenPoint>, document: &mut svg::Document, layer_style: &LayerStyle)
    requires
        pts@.len() > 0,
    ensures
        doc_nodes(*final(document)) == doc_nodes(*old(document)).push(
            (PATH_NODE as int, polygon_attrs(*layer_style, screen_views(pts@)), Seq::<char>::empty()),
        ),
{
    let d = path_d_string(pts);
    let mut p = path_new();
    p = path_set(p, "fill", layer_style.fill.as_str());
    p = path_set(p, "fill-opacity", layer_style.fill_opacity.as_str());
    p = path_set(p, "stroke", layer_style.stroke.as_str());
    p = path_set(p, "stroke-width", layer_style.stroke_width.as_str());
    p = path_set(p, "d", d.as_str());
    proof {
        assert(path_attrs(p) =~= polygon_attrs(*layer_style, screen_views(pts@)));
    }
    doc_append_path(document, p);
}

/// Draws a polyline as an open stroked path with round line joins appended
/// to the document.
pub fn draw_polyline(pts: &Vec<ScreenPoint>, document: &mut svg::Document, layer_style: &LayerStyle)
    requires
        pts@.len() > 0,
    ensures
        doc_nodes(*final(document)) == doc_nodes(*old(document)).push(
            (PATH_NODE as int, polyline_attrs(*layer_style, screen_views(pts@)), Seq::<char>::empty()),
        ),
{
    let d = path_d_string(pts);
    let mut p = path_new();
    p = path_set(p, "fill", layer_style.fill.as_str());
    p = path_set(p, "fill-opacity", layer_style.fill_opacity.as_str());
    p = path_set(p, "stroke", layer_style.stroke.as_str());
    p = path_set(p, "stroke-width", layer_style.stroke_width.as_str());
    p = path_set(p, "stroke-linejoin", "round");
    p = path_set(p, "d", d.as_str());
    proof {
        assert(path_attrs(p) =~= polyline_attrs(*layer_style, screen_views(pts@)));
    }
    doc_append_path(document, p);
}

/// The attribute map of a text label: anchored in the middle at the given
/// position, in Arial at the given size, filled with the given color.
pub open spec fn text_attrs_spec(pos: (int, int), font_size: u32, fill: Seq<char>) -> Map<
    Seq<char>,
    Seq<char>,
> {
    Map::<Seq<char>, Seq<char>>::empty().insert("x"@, int_str(pos.0)).insert(
        "y"@,
        int_str(pos.1),
    ).insert("font-family"@, "Arial"@).insert("font-size"@, dec_str(font_size as nat)).insert(
        "fill"@,
        fill,
    ).insert("text-anchor"@, "middle"@)
}

/// Draws a text label at a position on the map.
pub fn draw_text(
    position: ScreenPoint,
    text: &str,
    document: &mut svg::Document,
    font_size: u32,
    fill: &str,
)
    ensures
        doc_nodes(*final(document)) == doc_nodes(*old(document)).push(
            (TEXT_NODE as int, text_attrs_spec((position.x as int, position.y as int), font_size, fill@), text@),
        ),
{
    let mut t = text_new(text);
    let xs = i64_dec_string(position.x);
    t = text_set(t, "x", xs.as_str());
    let ys = i64_dec_string(position.y);
    t = text_set(t, "y", ys.as_str());
    t = text_set(t, "font-family", "Arial");
    let fs = u64_dec_string(font_size as u64);
    t = text_set(t, "font-size", fs.as_str());
    t = text_set(t, "fill", fill);
    t = text_set(t, "text-anchor", "middle");
    proof {
        assert(text_attrs(t) =~= text_attrs_spec((position.x as int, position.y as int), font_size, fill@));
    }
    doc_append_text(document, t);
}

/// The attribute map of a point marker: a filled circle of fixed radius at
/// the given position.
pub open spec fn marker_attrs_spec(pos: (int, int), fill: Seq<char>) -> Map<Seq<char>, Seq<char>> {
    Map::<Seq<char>, Seq<char>>::empty().insert("cx"@, int_str(pos.0)).insert(
        "cy"@,
        int_str(pos.1),
    ).insert("r"@, dec_str(POINT_MARKER_RADIUS as nat)).insert("fill"@, fill)
}

/// The primitives of a labelled point: a fixed-radius marker at the position,
/// then — when the label is not empty — the label text anchored a fixed
/// offset above it.
pub open spec fn point_label_prims(
    pos: (int, int),
    label: Seq<char>,
    fill: Seq<char>,
) -> Seq<DocNode> {
    let marker = seq![
        (CIRCLE_NODE as int, marker_attrs_spec(pos, fill), Seq::<char>::empty()),
    ];
    if label.len() > 0 {
        marker + seq![
            (
                TEXT_NODE as int,
                text_attrs_spec((pos.0, pos.1 - LABEL_OFFSET as int), LABEL_FONT_SIZE, fill),
                label,
            ),
        ]
    } else {
        marker
    }
}

/// Font size of point-record labels, in pixels.
pub const LABEL_FONT_SIZE: u32 = 12;

/// Draws a point record: a small fixed-radius marker, and the label text
/// anchored a fixed offset above it when the label is not empty.
pub fn draw_point_with_label(
    position: ScreenPoint,
    text: &str,
    document: &mut svg::Document,
    layer_style: &LayerStyle,
)
    requires
        position.y > i64::MIN + LABEL_OFFSET,
    ensures
        doc_nodes(*final(document)) == doc_nodes(*old(document)) + point_label_prims(
            (position.x as int, position.y as int),
            text@,
            layer_style.fill@,
        ),
{
    let mut c = circle_new();
    let xs = i64_dec_string(position.x);
    c = circle_set(c, "cx", xs.as_str());
    let ys = i64_dec_string(position.y);
    c = circle_set(c, "cy", ys.as_str());
    let rs = u64_dec_string(POINT_MARKER_RADIUS as u64);
    c = circle_set(c, "r", rs.as_str());
    c = circle_set(c, "fill", layer_style.fill.as_str());
    proof {
        assert(circle_attrs(c) =~= marker_attrs_spec(
            (position.x as int, position.y as int),
            layer_style.fill@,
        ));
    }
    doc_append_circle(document, c);
    if text.unicode_len() > 0 {
        let anchor = ScreenPoint { x: position.x, y: position.y - LABEL_OFFSET };
        draw_text(anchor, text, document, LABEL_FONT_SIZE, layer_style.fill.as_str());
    }
    proof {
        assert(doc_nodes(*document) =~= doc_nodes(*old(document)) + point_label_prims(
            (position.x as int, position.y as int),
            text@,
            layer_style.fill@,
        ));
    }
}

/// The full-frame background rectangle path: the four pixel corners of the
/// frame, in the order the background is traced.
pub open spec fn background_pts(f: MapFrame) -> Seq<(int, int)> {
    seq![(0int, 0int), (0int, f.rows as int), (f.cols as int, f.rows as int), (f.cols as int, 0int)]
}

/// The attribute map of the background rectangle: stroke, fill and fill
/// opacity from the background layer's style, and the frame's corner path.
pub open spec fn background_attrs(f: MapFrame, l: Layer) -> Map<Seq<char>, Seq<char>> {
    Map::<Seq<char>, Seq<char>>::empty().insert("stroke"@, l.layer_style.stroke@).insert(
        "fill"@,
        l.layer_style.fill@,
    ).insert("fill-opacity"@, l.layer_style.fill_opacity@).insert("d"@, path_d(background_pts(f)))
}

/// Sets the background of the map: a full-frame rectangle styled per the
/// given layer, axis-aligned in pixel space whatever the projection.
pub fn set_background(map: &MapFrame, document: &mut svg::Document, layer: &Layer)
    requires
        map.wf(),
    ensures
        doc_nodes(*final(document)) == doc_nodes(*old(document)).push(
            (PATH_NODE as int, background_attrs(*map, *layer), Seq::<char>::empty()),
        ),
{
    let mut corners: Vec<ScreenPoint> = Vec::new();
    corners.push(ScreenPoint { x: 0, y: 0 });
    corners.push(ScreenPoint { x: 0, y: map.rows });
    corners.push(ScreenPoint { x: map.cols, y: map.rows });
    corners.push(ScreenPoint { x: map.cols, y: 0 });
    proof {
        assert(screen_views(corners@) =~= background_pts(*map));
    }
    let d = path_d_string(&corners);
    let mut p = path_new();
    p = path_set(p, "stroke", layer.layer_style.stroke.as_str());
    p = path_set(p, "fill", layer.layer_style.fill.as_str());
    p = path_set(p, "fill-opacity", layer.layer_style.fill_opacity.as_str());
    p = path_set(p, "d", d.as_str());
    proof {
        assert(path_attrs(p) =~= background_attrs(*map, *layer));
    }
    doc_append_path(document, p);
}

} // verus!
