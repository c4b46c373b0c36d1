//! Conversion of the SVG document to pixels, through `usvg`, `resvg` and
//! `tiny_skia`, and PNG encoding of the final buffer.

use vstd::prelude::*;
use crate::layout::MAX_FINAL_SIZE;
use crate::svg_out::svg_parseable;

verus! {

/// The parsed SVG tree of `usvg`, kept opaque; the engine reads it only
/// through [`tree_src`].
#[verifier::external_type_specification]
#[verifier::external_body]
pub struct ExUsvgTree(usvg::Tree);

/// The pixel map of `tiny_skia`, kept opaque; the engine reads it only
/// through [`pix_data`] and [`pix_size`].
#[verifier::external_type_specification]
#[verifier::external_body]
pub struct ExPixmap(tiny_skia::Pixmap);

/// The SVG document bytes a parsed tree stands for.
pub uninterp spec fn tree_src(t: usvg::Tree) -> Seq<u8>;

/// The RGBA bytes a pixmap holds, row-major, four per pixel.
pub uninterp spec fn pix_data(p: tiny_skia::Pixmap) -> Seq<u8>;

/// A pixmap's (width, height), in pixels.
pub uninterp spec fn pix_size(p: tiny_skia::Pixmap) -> (u32, u32);

/// The pixels `resvg` draws for an SVG document onto a transparent pixmap
/// of the given size: a function of the document bytes and the size alone.
pub uninterp spec fn raster_of(svg: Seq<u8>, size: (u32, u32)) -> Seq<u8>;

/// The PNG encoding of a pixmap's pixels: a function of the bytes and the
/// dimensions alone.
pub uninterp spec fn png_of(data: Seq<u8>, size: (u32, u32)) -> Seq<u8>;

/// Relies on `usvg::Tree::from_data` with default options: parses an SVG
/// document, `None` when the document is rejected; it accepts every
/// parseable document (see `svg_out::doc_to_bytes`), and the returned
/// tree stands for the bytes it was parsed from.
#[verifier::external_body]
pub fn parse_svg(data: &Vec<u8>) -> (r: Option<usvg::Tree>)
    ensures
        r is Some ==> tree_src(r->0) == data@,
        svg_parseable(data@) ==> r is Some,
{
    usvg::Tree::from_data(data.as_slice(), &usvg::Options::default()).ok()
}

/// Relies on `tiny_skia::Pixmap::new`: a square pixmap of the given side,
/// filled with transparent black; `None` when the size is zero or beyond
/// what the crate can address, and `Some` for every side the engine asks
/// for (the byte count stays within the crate's checked limits).
#[verifier::external_body]
pub fn pixmap_new(size: u32) -> (r: Option<tiny_skia::Pixmap>)
    ensures
        r is Some ==> pix_size(r->0) == (size, size),
        r is Some ==> pix_data(r->0).len() == size * size * 4,
        r is Some ==> forall|i: int| 0 <= i < pix_data(r->0).len() ==> pix_data(r->0)[i] == 0u8,
        1 <= size <= MAX_FINAL_SIZE ==> r is Some,
{
    tiny_skia::Pixmap::new(size, size)
}

/// Relies on `resvg::render`: draws the tree onto the pixmap, scaling the
/// view box onto the document's width/height; the pixmap keeps its size,
/// and on a freshly allocated (all-transparent) pixmap the drawn pixels
/// are a function of the document and the pixmap size alone.
#[verifier::external_body]
pub fn render_tree(tree: &usvg::Tree, pixmap: &mut tiny_skia::Pixmap)
    ensures
        pix_size(*final(pixmap)) == pix_size(*old(pixmap)),
        pix_data(*final(pixmap)).len() == pix_data(*old(pixmap)).len(),
        (forall|i: int|
            0 <= i < pix_data(*old(pixmap)).len() ==> pix_data(*old(pixmap))[i] == 0u8)
            ==> pix_data(*final(pixmap)) == raster_of(tree_src(*tree), pix_size(*old(pixmap))),
{
    resvg::render(tree, tiny_skia::Transform::identity(), &mut pixmap.as_mut());
}

/// Relies on `tiny_skia::Pixmap::take`: hands out the pixmap's bytes.
#[verifier::external_body]
pub fn pixmap_take(pixmap: tiny_skia::Pixmap) -> (r: Vec<u8>)
    ensures
        r@ == pix_data(pixmap),
{
    pixmap.take()
}

/// Relies on `tiny_skia::Pixmap::from_vec`: wraps raw RGBA bytes of a
/// square image back into a pixmap; `None` only on a size mismatch.
#[verifier::external_body]
pub fn pixmap_from_raw(data: &Vec<u8>, size: u32) -> (r: Option<tiny_skia::Pixmap>)
    ensures
        r is Some ==> pix_data(r->0) == data@,
        r is Some ==> pix_size(r->0) == (size, size),
        data@.len() == size * size * 4 && 1 <= size <= 65536 ==> r is Some,
{
    let wh = tiny_skia::IntSize::from_wh(size, size)?;
    tiny_skia::Pixmap::from_vec(data.clone(), wh)
}

/// Relies on `tiny_skia::Pixmap::encode_png`: the PNG bytes of the pixmap,
/// a deterministic encoding of its pixels and size. It writes RGBA8 rows
/// of the pixmap's own dimensions into a vector, which cannot fail for
/// any pixmap the crate can construct.
#[verifier::external_body]
pub fn encode_png(pixmap: &tiny_skia::Pixmap) -> (r: Option<Vec<u8>>)
    ensures
        r is Some,
        r is Some ==> r->0@ == png_of(pix_data(*pixmap), pix_size(*pixmap)),
{
    pixmap.encode_png().ok()
}

} // verus!
