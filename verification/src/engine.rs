//! The rendering pipeline: matrix to SVG document, SVG to raster pixels,
//! overlay placement and compositing, and PNG encoding.

use vstd::prelude::*;
use vstd::arithmetic::div_mod::{
    lemma_fundamental_div_mod, lemma_div_is_ordered, lemma_div_multiples_vanish,
    lemma_mod_pos_bound,
};
use crate::layout::{
    Layout, spec_layout_of, central_modules, spec_central_modules, aspect_fit, spec_fit_width,
    spec_fit_height, MAX_FINAL_SIZE, MAX_MODULES,
};
use crate::render::{
    ModuleStyle, RenderError, spec_matrix_valid, matrix_valid, build_scene, spec_scene,
    MIN_MODULES,
};
use crate::svg_out::{canvas_to_svg, spec_svg_bytes, svg_parseable};
use crate::laws::{lemma_scene_in_canvas, lemma_scene_len, lemma_central_region_within_grid};
use crate::pixels::{PixelBuffer, spec_composited};
use crate::raster::{
    parse_svg, pixmap_new, render_tree, pixmap_take, pixmap_from_raw, encode_png, png_of,
    raster_of,
};
use crate::overlay::{resize_rgba, lanczos_of};

verus! {

/// The SVG document output for a matrix, style and export size.
pub open spec fn spec_svg_output(m: Seq<Seq<bool>>, style: ModuleStyle, final_size: u32) -> Seq<
    u8,
> {
    let lay = spec_layout_of(m.len() as u32, final_size);
    spec_svg_bytes(spec_scene(m, lay, style), lay.canvas_units, final_size)
}

/// The raster output for a matrix, style and export size, before the
/// overlay: the SVG document rasterized onto a transparent square pixmap.
pub open spec fn spec_raster_output(m: Seq<Seq<bool>>, style: ModuleStyle, final_size: u32) -> Seq<
    u8,
> {
    raster_of(spec_svg_output(m, style, final_size), (final_size, final_size))
}

/// The central region's side, in raster pixels.
pub open spec fn spec_region_size_px(n: u32, fs: u32) -> int {
    let lay = spec_layout_of(n, fs);
    spec_central_modules(n) * lay.module_size * fs / lay.canvas_units as int
}

/// The central region's offset from the canvas corner, in raster pixels.
pub open spec fn spec_region_off_px(n: u32, fs: u32) -> int {
    let lay = spec_layout_of(n, fs);
    (lay.qr_offset + (n - spec_central_modules(n)) * lay.module_size / 2) * fs
        / lay.canvas_units as int
}

/// The overlay's target side: 90 percent of the central region.
pub open spec fn spec_overlay_target(n: u32, fs: u32) -> int {
    spec_region_size_px(n, fs) * 9 / 10
}

/// The overlay's aspect-fitted width in pixels, at least one.
pub open spec fn spec_overlay_w(n: u32, fs: u32, ow: u32, oh: u32) -> int {
    let sw = spec_fit_width(ow, oh, spec_overlay_target(n, fs) as u32);
    if sw < 1 {
        1
    } else {
        sw
    }
}

/// The overlay's aspect-fitted height in pixels, at least one.
pub open spec fn spec_overlay_h(n: u32, fs: u32, ow: u32, oh: u32) -> int {
    let sh = spec_fit_height(ow, oh, spec_overlay_target(n, fs) as u32);
    if sh < 1 {
        1
    } else {
        sh
    }
}

/// Where the overlay's left edge lands: centered in the region on that
/// axis, or at the region's start when the clamped overlay overhangs it.
pub open spec fn spec_overlay_x(n: u32, fs: u32, ow: u32, oh: u32) -> int {
    let rsp = spec_region_size_px(n, fs);
    let sw = spec_overlay_w(n, fs, ow, oh);
    spec_region_off_px(n, fs) + if rsp >= sw {
        (rsp - sw) / 2
    } else {
        0
    }
}

/// Where the overlay's top edge lands, as [`spec_overlay_x`].
pub open spec fn spec_overlay_y(n: u32, fs: u32, ow: u32, oh: u32) -> int {
    let rsp = spec_region_size_px(n, fs);
    let sh = spec_overlay_h(n, fs, ow, oh);
    spec_region_off_px(n, fs) + if rsp >= sh {
        (rsp - sh) / 2
    } else {
        0
    }
}

/// The finished image for a matrix, style, decoded overlay and export
/// size: the raster output with the aspect-fitted overlay composited into
/// the central reserved region.
pub open spec fn spec_image_output(
    m: Seq<Seq<bool>>,
    style: ModuleStyle,
    od: Seq<u8>,
    ow: u32,
    oh: u32,
    final_size: u32,
) -> Seq<u8> {
    let n = m.len() as u32;
    spec_composited(
        spec_raster_output(m, style, final_size),
        final_size as int,
        lanczos_of(
            od,
            ow,
            oh,
            spec_overlay_w(n, final_size, ow, oh) as u32,
            spec_overlay_h(n, final_size, ow, oh) as u32,
        ),
        spec_overlay_w(n, final_size, ow, oh),
        spec_overlay_h(n, final_size, ow, oh),
        spec_overlay_x(n, final_size, ow, oh),
        spec_overlay_y(n, final_size, ow, oh),
    )
}

/// Render the matrix to a complete SVG document carrying the scene and
/// the requested raster export size.
pub fn render_svg_document(matrix: &Vec<Vec<bool>>, style: ModuleStyle, final_size: u32) -> (r:
    Result<Vec<u8>, RenderError>)
    ensures
        r is Ok <==> spec_matrix_valid(matrix.deep_view()) && final_size <= MAX_FINAL_SIZE,
        r is Ok ==> r->Ok_0@ == spec_svg_output(matrix.deep_view(), style, final_size),
        !spec_matrix_valid(matrix.deep_view()) ==> r == Result::<Vec<u8>, RenderError>::Err(
            RenderError::InvalidMatrix,
        ),
        spec_matrix_valid(matrix.deep_view()) && final_size > MAX_FINAL_SIZE ==> r
            == Result::<Vec<u8>, RenderError>::Err(RenderError::CanvasAllocationFailure),
        r is Ok && final_size >= 1 ==> svg_parseable(r->Ok_0@),
{
    if !matrix_valid(matrix) {
        return Err(RenderError::InvalidMatrix);
    }
    if final_size > MAX_FINAL_SIZE {
        return Err(RenderError::CanvasAllocationFailure);
    }
    let n = matrix.len() as u32;
    let lay = Layout::new(n, final_size);
    let canvas = build_scene(matrix, lay, style);
    proof {
        lemma_scene_in_canvas(matrix.deep_view(), lay, style);
        lemma_scene_len(matrix.deep_view(), lay, style);
        assert(1 <= (lay.num_modules + 4) * lay.module_size && lay.num_modules
            * lay.num_modules <= 512 * 512) by (nonlinear_arith)
            requires
                1 <= lay.module_size,
                lay.num_modules <= 512,
        ;
    }
    Ok(canvas_to_svg(&canvas, final_size))
}

/// Rasterize the matrix's SVG document to a `final_size` square pixel
/// buffer, without the overlay.
pub fn render_raster(matrix: &Vec<Vec<bool>>, style: ModuleStyle, final_size: u32) -> (r: Result<
    PixelBuffer,
    RenderError,
>)
    ensures
        r is Ok <==> spec_matrix_valid(matrix.deep_view()) && 1 <= final_size <= MAX_FINAL_SIZE,
        r is Ok ==> r->Ok_0.wf() && r->Ok_0.width == final_size && r->Ok_0.height == final_size,
        r is Ok ==> r->Ok_0.data@ == spec_raster_output(matrix.deep_view(), style, final_size),
        !spec_matrix_valid(matrix.deep_view()) ==> r == Result::<PixelBuffer, RenderError>::Err(
            RenderError::InvalidMatrix,
        ),
        spec_matrix_valid(matrix.deep_view()) && !(1 <= final_size <= MAX_FINAL_SIZE) ==> r
            == Result::<PixelBuffer, RenderError>::Err(RenderError::CanvasAllocationFailure),
{
    if !matrix_valid(matrix) {
        return Err(RenderError::InvalidMatrix);
    }
    if final_size < 1 || final_size > MAX_FINAL_SIZE {
        return Err(RenderError::CanvasAllocationFailure);
    }
    let svg = match render_svg_document(matrix, style, final_size) {
        Ok(svg) => svg,
        Err(e) => {
            return Err(e);
        },
    };
    let tree = match parse_svg(&svg) {
        Some(tree) => tree,
        None => {
            return Err(RenderError::RasterizationFailure);
        },
    };
    let mut pixmap = match pixmap_new(final_size) {
        Some(pixmap) => pixmap,
        None => {
            return Err(RenderError::CanvasAllocationFailure);
        },
    };
    render_tree(&tree, &mut pixmap);
    let data = pixmap_take(pixmap);
    Ok(PixelBuffer::from_raw(final_size, final_size, data))
}

/// Aspect-fit the overlay into 90 percent of the central reserved region
/// and composite it onto the rendered raster, centered in the region.
pub fn compose_overlay(
    base: &mut PixelBuffer,
    overlay: &PixelBuffer,
    num_modules: u32,
    final_size: u32,
) -> (r: Result<(), RenderError>)
    requires
        old(base).wf(),
        overlay.wf(),
        old(base).width == final_size,
        old(base).height == final_size,
        MIN_MODULES <= num_modules <= MAX_MODULES,
        1 <= final_size <= MAX_FINAL_SIZE,
    ensures
        overlay.width == 0 || overlay.height == 0 ==> r == Result::<(), RenderError>::Err(
            RenderError::OverlayDecodeFailure,
        ) && *final(base) == *old(base),
        overlay.width >= 1 && overlay.height >= 1 ==> r == Result::<(), RenderError>::Ok(())
            && final(base).wf() && final(base).width == final_size && final(base).height
            == final_size && final(base).data@ == spec_composited(
            old(base).data@,
            final_size as int,
            lanczos_of(
                overlay.data@,
                overlay.width,
                overlay.height,
                spec_overlay_w(num_modules, final_size, overlay.width, overlay.height) as u32,
                spec_overlay_h(num_modules, final_size, overlay.width, overlay.height) as u32,
            ),
            spec_overlay_w(num_modules, final_size, overlay.width, overlay.height),
            spec_overlay_h(num_modules, final_size, overlay.width, overlay.height),
            spec_overlay_x(num_modules, final_size, overlay.width, overlay.height),
            spec_overlay_y(num_modules, final_size, overlay.width, overlay.height),
        ),
{
    if overlay.width == 0 || overlay.height == 0 {
        return Err(RenderError::OverlayDecodeFailure);
    }
    let n = num_modules;
    let lay = Layout::new(n, final_size);
    let c = central_modules(n);
    proof {
        lemma_central_region_within_grid(lay);
        assert(c * lay.module_size <= n * lay.module_size && n * lay.module_size + lay.qr_offset
            <= lay.canvas_units && (n - c) * lay.module_size <= n * lay.module_size)
            by (nonlinear_arith)
            requires
                lay.wf(),
                1 <= c <= n,
                n == lay.num_modules,
        ;
    }
    let rsu: u32 = c * lay.module_size;
    let rou: u32 = lay.qr_offset + (n - c) * lay.module_size / 2;
    proof {
        assert(rou + rsu <= lay.canvas_units);
    }
    let w: u32 = lay.canvas_units;
    let rsp: u32 = px_of_units(rsu, final_size, w);
    let rop: u32 = px_of_units(rou, final_size, w);
    proof {
        lemma_fundamental_div_mod(rsp as int * 9, 10);
        lemma_mod_pos_bound(rsp as int * 9, 10);
        assert(rsp * 9 / 10 * 10 <= rsp * 9 <= rsp * 10) by (nonlinear_arith)
            requires
                0 <= rsp,
                rsp * 9 == 10 * (rsp as int * 9 / 10) + (rsp as int * 9) % 10,
                0 <= (rsp as int * 9) % 10,
        ;
        assert(10 * (rsp as int * 9 / 10) <= 10 * rsp ==> rsp as int * 9 / 10 <= rsp)
            by (nonlinear_arith);
    }
    let target: u32 = rsp * 9 / 10;
    let dims = aspect_fit(overlay.width, overlay.height, target);
    let sw: u32 = if dims.0 < 1 {
        1
    } else {
        dims.0
    };
    let sh: u32 = if dims.1 < 1 {
        1
    } else {
        dims.1
    };
    let ox: u32 = rop + if rsp >= sw {
        (rsp - sw) / 2
    } else {
        0
    };
    let oy: u32 = rop + if rsp >= sh {
        (rsp - sh) / 2
    } else {
        0
    };
    let resized = resize_rgba(&overlay.data, overlay.width, overlay.height, sw, sh);
    let logo = PixelBuffer::from_raw(sw, sh, resized);
    base.composite_image(ox, oy, &logo);
    Ok(())
}

/// Convert `u` canvas units to raster pixels: `u * fs / w`, rounded down.
fn px_of_units(u: u32, fs: u32, w: u32) -> (r: u32)
    requires
        1 <= w <= 65536,
        u <= w,
        fs <= MAX_FINAL_SIZE,
    ensures
        r == u * fs / w as int,
        r <= fs,
{
    proof {
        assert(u * fs <= w * fs && u * fs <= 0x4000_0000 && w * fs == fs * w)
            by (nonlinear_arith)
            requires
                0 <= u <= w <= 65536,
                0 <= fs <= 16384,
        ;
        lemma_div_is_ordered(u as int * fs as int, w as int * fs as int, w as int);
        lemma_div_multiples_vanish(fs as int, w as int);
    }
    u * fs / w
}

/// Render the matrix, rasterize it, and composite the overlay into the
/// central reserved region: the full pipeline up to the pixel buffer.
pub fn render_image(
    matrix: &Vec<Vec<bool>>,
    style: ModuleStyle,
    overlay: &PixelBuffer,
    final_size: u32,
) -> (r: Result<PixelBuffer, RenderError>)
    requires
        overlay.wf(),
    ensures
        r is Ok <==> spec_matrix_valid(matrix.deep_view()) && 1 <= final_size <= MAX_FINAL_SIZE
            && overlay.width >= 1 && overlay.height >= 1,
        r is Ok ==> r->Ok_0.wf() && r->Ok_0.width == final_size && r->Ok_0.height == final_size,
        r is Ok ==> r->Ok_0.data@ == spec_image_output(
            matrix.deep_view(),
            style,
            overlay.data@,
            overlay.width,
            overlay.height,
            final_size,
        ),
        !spec_matrix_valid(matrix.deep_view()) ==> r == Result::<PixelBuffer, RenderError>::Err(
            RenderError::InvalidMatrix,
        ),
        spec_matrix_valid(matrix.deep_view()) && !(1 <= final_size <= MAX_FINAL_SIZE) ==> r
            == Result::<PixelBuffer, RenderError>::Err(RenderError::CanvasAllocationFailure),
        spec_matrix_valid(matrix.deep_view()) && 1 <= final_size <= MAX_FINAL_SIZE && (
        overlay.width == 0 || overlay.height == 0) ==> r == Result::<PixelBuffer, RenderError>::Err(
            RenderError::OverlayDecodeFailure,
        ),
{
    if !matrix_valid(matrix) {
        return Err(RenderError::InvalidMatrix);
    }
    if final_size < 1 || final_size > MAX_FINAL_SIZE {
        return Err(RenderError::CanvasAllocationFailure);
    }
    if overlay.width == 0 || overlay.height == 0 {
        return Err(RenderError::OverlayDecodeFailure);
    }
    let mut base = match render_raster(matrix, style, final_size) {
        Ok(base) => base,
        Err(e) => {
            return Err(e);
        },
    };
    let n = matrix.len() as u32;
    let composed = compose_overlay(&mut base, overlay, n, final_size);
    proof {
        assert(composed is Ok);
    }
    Ok(base)
}

/// Encode a square pixel buffer as PNG bytes.
pub fn encode_buffer_png(buffer: &PixelBuffer) -> (r: Result<Vec<u8>, RenderError>)
    requires
        buffer.wf(),
        buffer.width == buffer.height,
        1 <= buffer.width,
    ensures
        r is Ok,
        r->Ok_0@ == png_of(buffer.data@, (buffer.width, buffer.height)),
{
    let pixmap = match pixmap_from_raw(&buffer.data, buffer.width) {
        Some(pixmap) => pixmap,
        None => {
            // Unreachable: a well-formed square buffer always wraps.
            return Err(RenderError::RasterizationFailure);
        },
    };
    match encode_png(&pixmap) {
        Some(bytes) => Ok(bytes),
        None => Err(RenderError::RasterizationFailure),
    }
}

/// Rendering is deterministic: one (matrix, style, overlay, size) input
/// determines the SVG document's bytes, the rasterized pixels and the
/// finished image, so rendering the same input twice produces
/// byte-identical vector output and identical raster output (up to the
/// determinism of the rasterizer and resampler, which the names
/// `raster_of` and `lanczos_of` state).
pub proof fn lemma_render_deterministic(
    m1: Seq<Seq<bool>>,
    m2: Seq<Seq<bool>>,
    style1: ModuleStyle,
    style2: ModuleStyle,
    od1: Seq<u8>,
    od2: Seq<u8>,
    ow1: u32,
    ow2: u32,
    oh1: u32,
    oh2: u32,
    size1: u32,
    size2: u32,
)
    requires
        m1 == m2,
        style1 == style2,
        od1 == od2,
        ow1 == ow2,
        oh1 == oh2,
        size1 == size2,
    ensures
        spec_svg_output(m1, style1, size1) == spec_svg_output(m2, style2, size2),
        spec_raster_output(m1, style1, size1) == spec_raster_output(m2, style2, size2),
        spec_image_output(m1, style1, od1, ow1, oh1, size1) == spec_image_output(
            m2,
            style2,
            od2,
            ow2,
            oh2,
            size2,
        ),
{
}

} // verus!
