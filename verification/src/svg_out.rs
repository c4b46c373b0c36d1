//! Export of the vector scene as an SVG document, through the `svg` crate.
//!
//! The document is written in doubled canvas units so that circle centres
//! and radii stay integral; the view box scales the drawing losslessly, and
//! the `width`/`height` attributes carry the requested raster export size.

use vstd::prelude::*;
use crate::color::Color;
use crate::scene::{Shape, VectorCanvas};

verus! {

/// A scene record: shape kind (0 rectangle, 1 circle), two coordinates,
/// one size, and four color channels, all in doubled canvas units.
pub type ShapeRecord = (u32, u32, u32, u32, u32, u32, u32, u32);

/// The `svg` crate's document type, kept opaque; the engine reads it only
/// through [`doc_content`] and [`doc_frame`].
#[verifier::external_type_specification]
#[verifier::external_body]
pub struct ExSvgDocument(svg::node::element::SVG);

/// The scene records added to a document so far, in painting order.
pub uninterp spec fn doc_content(d: svg::node::element::SVG) -> Seq<ShapeRecord>;

/// A document's fixed frame: (view-box side in doubled units, export size).
pub uninterp spec fn doc_frame(d: svg::node::element::SVG) -> (u32, u32);

/// The bytes the `svg` crate serializes a document to. Its writer sorts
/// attributes, so the output is a function of the records and frame alone.
pub uninterp spec fn svg_render(content: Seq<ShapeRecord>, frame: (u32, u32)) -> Seq<u8>;

/// Most shapes a document may hold for the raster path's SVG parser to
/// accept it, comfortably under that parser's million-element limit.
pub const MAX_SVG_SHAPES: u64 = 900000;

/// Documents that the SVG parser of the raster path accepts. Every
/// document this module writes with a positive view box and export size
/// and at most [`MAX_SVG_SHAPES`] shapes is among them (see
/// [`doc_to_bytes`]).
pub uninterp spec fn svg_parseable(data: Seq<u8>) -> bool;

/// The record written for one shape, in doubled units: a circle is stored
/// by its centre and radius, a rectangle by its corner and side.
pub open spec fn spec_shape_record(s: Shape) -> ShapeRecord {
    match s {
        Shape::Rect { x, y, side, color } => (
            0u32,
            (2 * x) as u32,
            (2 * y) as u32,
            (2 * side) as u32,
            color.r as u32,
            color.g as u32,
            color.b as u32,
            color.a as u32,
        ),
        Shape::Circle { x, y, diameter, color } => (
            1u32,
            (2 * x + diameter) as u32,
            (2 * y + diameter) as u32,
            diameter,
            color.r as u32,
            color.g as u32,
            color.b as u32,
            color.a as u32,
        ),
    }
}

/// The records of a whole scene, in painting order.
pub open spec fn spec_scene_records(shapes: Seq<Shape>) -> Seq<ShapeRecord> {
    shapes.map_values(|s: Shape| spec_shape_record(s))
}

/// The serialized SVG document of a scene with view box `units` and raster
/// export size `export_px`.
pub open spec fn spec_svg_bytes(shapes: Seq<Shape>, units: u32, export_px: u32) -> Seq<u8> {
    svg_render(spec_scene_records(shapes), ((2 * units) as u32, export_px))
}

/// A shape lies inside the square canvas of side `units`.
pub open spec fn spec_shape_in_canvas(s: Shape, units: int) -> bool {
    match s {
        Shape::Rect { x, y, side, .. } => x + side <= units && y + side <= units,
        Shape::Circle { x, y, diameter, .. } => x + diameter <= units && y + diameter <= units,
    }
}

/// Relies on `svg::node::element::SVG::new` and `Node::assign`: a fresh
/// document with no shapes, carrying the view box and export size.
#[verifier::external_body]
fn doc_new(units2: u32, export_px: u32) -> (d: svg::node::element::SVG)
    ensures
        doc_content(d) == Seq::<ShapeRecord>::empty(),
        doc_frame(d) == (units2, export_px),
{
    svg::node::element::SVG::new()
        .set("viewBox", (0u32, 0u32, units2, units2))
        .set("width", export_px)
        .set("height", export_px)
}

/// Relies on `svg::Node::append` through `SVG::add`: appends one `rect`
/// element, leaving the earlier content and the frame unchanged.
#[verifier::external_body]
fn doc_add_rect(d: svg::node::element::SVG, x: u32, y: u32, side: u32, color: &Color) -> (r:
    svg::node::element::SVG)
    ensures
        doc_content(r) == doc_content(d).push(
            (0u32, x, y, side, color.r as u32, color.g as u32, color.b as u32, color.a as u32),
        ),
        doc_frame(r) == doc_frame(d),
{
    let fill = format!("rgba({},{},{},{})", color.r, color.g, color.b, color.a);
    let rect = svg::node::element::Rectangle::new()
        .set("x", x)
        .set("y", y)
        .set("width", side)
        .set("height", side)
        .set("fill", fill);
    d.add(rect)
}

/// Relies on `svg::Node::append` through `SVG::add`: appends one `circle`
/// element, leaving the earlier content and the frame unchanged.
#[verifier::external_body]
fn doc_add_circle(d: svg::node::element::SVG, cx: u32, cy: u32, radius: u32, color: &Color) -> (r:
    svg::node::element::SVG)
    ensures
        doc_content(r) == doc_content(d).push(
            (1u32, cx, cy, radius, color.r as u32, color.g as u32, color.b as u32, color.a as u32),
        ),
        doc_frame(r) == doc_frame(d),
{
    let fill = format!("rgba({},{},{},{})", color.r, color.g, color.b, color.a);
    let circle = svg::node::element::Circle::new()
        .set("cx", cx)
        .set("cy", cy)
        .set("r", radius)
        .set("fill", fill);
    d.add(circle)
}

/// Relies on the `svg` crate's `Display` implementation (via
/// `to_string`): it writes the elements in insertion order with their
/// attributes sorted by name, so the bytes depend on the document alone.
/// It emits well-formed XML with an `xmlns`, numeric `width`, `height`
/// and `viewBox` attributes and only `rect`/`circle` children, which
/// `usvg::Tree::from_data` accepts whenever the view box and the export
/// size are positive and the children stay under its million-element
/// limit.
#[verifier::external_body]
fn doc_to_bytes(d: &svg::node::element::SVG) -> (r: Vec<u8>)
    ensures
        r@ == svg_render(doc_content(*d), doc_frame(*d)),
        doc_frame(*d).0 >= 1 && doc_frame(*d).1 >= 1 && doc_content(*d).len() <= MAX_SVG_SHAPES
            ==> svg_parseable(r@),
{
    d.to_string().into_bytes()
}

/// Serialize a canvas to an SVG document of `export_px` raster pixels.
pub fn canvas_to_svg(canvas: &VectorCanvas, export_px: u32) -> (r: Vec<u8>)
    requires
        1 <= canvas.units <= 65536,
        forall|k: int|
            0 <= k < canvas.shapes@.len() ==> spec_shape_in_canvas(
                #[trigger] canvas.shapes@[k],
                canvas.units as int,
            ),
    ensures
        r@ == spec_svg_bytes(canvas.shapes@, canvas.units, export_px),
        export_px >= 1 && canvas.shapes@.len() <= MAX_SVG_SHAPES ==> svg_parseable(r@),
{
    let mut d = doc_new(2 * canvas.units, export_px);
    let mut k: usize = 0;
    let n = canvas.shapes.len();
    while k < n
        invariant
            0 <= k <= n,
            n == canvas.shapes@.len(),
            canvas.units <= 65536,
            forall|j: int|
                0 <= j < canvas.shapes@.len() ==> spec_shape_in_canvas(
                    #[trigger] canvas.shapes@[j],
                    canvas.units as int,
                ),
            doc_content(d) == spec_scene_records(canvas.shapes@.take(k as int)),
            doc_frame(d) == ((2 * canvas.units) as u32, export_px),
        decreases n - k,
    {
        let s = canvas.shapes[k];
        match s {
            Shape::Rect { x, y, side, color } => {
                d = doc_add_rect(d, 2 * x, 2 * y, 2 * side, &color);
            },
            Shape::Circle { x, y, diameter, color } => {
                d = doc_add_circle(d, 2 * x + diameter, 2 * y + diameter, diameter, &color);
            },
        }
        proof {
            assert(doc_content(d) =~= spec_scene_records(canvas.shapes@.take(k as int + 1)));
        }
        k += 1;
    }
    proof {
        assert(canvas.shapes@.take(n as int) =~= canvas.shapes@);
    }
    doc_to_bytes(&d)
}

} // verus!
