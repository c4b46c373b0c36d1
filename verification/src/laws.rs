//! Laws of the renderer: the finder patterns are fixed and untouched by
//! module painting, the central region stays inside the grid, and
//! aspect-fit scaling preserves the aspect ratio.

use vstd::prelude::*;
use vstd::arithmetic::div_mod::{
    lemma_fundamental_div_mod, lemma_fundamental_div_mod_converse_mod, lemma_mod_pos_bound,
    lemma_div_is_ordered, lemma_div_multiples_vanish,
};
use crate::layout::{
    Layout, spec_central_modules, spec_region_offset_units, spec_region_size_units,
    spec_fit_width, spec_fit_height,
};
use crate::render::{
    ModuleStyle, spec_in_finder, spec_matrix_valid, spec_cell_shapes, spec_row_prefix,
    spec_rows_prefix, spec_module_shapes, spec_scene, spec_finders, FINDER_SIZE,
};
use crate::scene::{Shape, VectorCanvas};
use crate::svg_out::spec_shape_in_canvas;

verus! {

/// The anchor, in module coordinates, of finder pattern `j`: top-left,
/// top-right, bottom-left.
pub open spec fn spec_finder_anchor(lay: Layout, j: int) -> (int, int) {
    if j == 0 {
        (0int, 0int)
    } else if j == 1 {
        (lay.num_modules - FINDER_SIZE, 0int)
    } else {
        (0int, lay.num_modules - FINDER_SIZE)
    }
}

/// The canvas-unit box `(x, y, side)` covered by finder pattern `j`.
pub open spec fn spec_finder_region(lay: Layout, j: int) -> (int, int, int) {
    let a = spec_finder_anchor(lay, j);
    (
        lay.qr_offset + a.0 * lay.module_size,
        lay.qr_offset + a.1 * lay.module_size,
        FINDER_SIZE * lay.module_size,
    )
}

/// The canvas-unit box `(x, y, side)` a shape covers.
pub open spec fn spec_shape_box(s: Shape) -> (int, int, int) {
    match s {
        Shape::Rect { x, y, side, .. } => (x as int, y as int, side as int),
        Shape::Circle { x, y, diameter, .. } => (x as int, y as int, diameter as int),
    }
}

/// Two intervals `[a, a + al)` and `[b, b + bl)` do not meet.
pub open spec fn spec_disjoint_1d(a: int, al: int, b: int, bl: int) -> bool {
    a + al <= b || b + bl <= a
}

/// Two boxes do not meet: they are apart on at least one axis.
pub open spec fn spec_boxes_disjoint(a: (int, int, int), b: (int, int, int)) -> bool {
    spec_disjoint_1d(a.0, a.2, b.0, b.2) || spec_disjoint_1d(a.1, a.2, b.1, b.2)
}

/// A shape keeps clear of all three finder-pattern regions.
pub open spec fn spec_clear_of_finders(lay: Layout, s: Shape) -> bool {
    forall|j: int| 0 <= j < 3 ==> spec_boxes_disjoint(spec_shape_box(s), spec_finder_region(lay, j))
}

/// The shape of a module outside every finder footprint is geometrically
/// disjoint from all three finder regions, and lies inside the canvas.
proof fn lemma_cell_shape_clear(m: Seq<Seq<bool>>, lay: Layout, style: ModuleStyle, r: int, c: int)
    requires
        lay.wf(),
        FINDER_SIZE <= lay.num_modules,
        0 <= r < lay.num_modules,
        0 <= c < lay.num_modules,
        !spec_in_finder(c, r, lay.num_modules as int),
    ensures
        spec_clear_of_finders(lay, crate::render::spec_module_shape(lay, r, c, style)),
        spec_shape_in_canvas(
            crate::render::spec_module_shape(lay, r, c, style),
            lay.canvas_units as int,
        ),
{
    let n = lay.num_modules as int;
    let ms = lay.module_size as int;
    let off = lay.qr_offset as int;
    assert(off + c * ms + ms <= lay.canvas_units && off + r * ms + ms <= lay.canvas_units && 0 <= c
        * ms && 0 <= r * ms) by (nonlinear_arith)
        requires
            lay.wf(),
            0 <= r < n,
            0 <= c < n,
            n == lay.num_modules,
            ms == lay.module_size,
            off == lay.qr_offset,
    ;
    let s = crate::render::spec_module_shape(lay, r, c, style);
    let b = spec_shape_box(s);
    assert(b.0 == off + c * ms && b.1 == off + r * ms && b.2 == ms);
    assert forall|j: int| 0 <= j < 3 implies spec_boxes_disjoint(b, spec_finder_region(lay, j)) by {
        let a = spec_finder_anchor(lay, j);
        assert((c + 1 <= a.0 ==> c * ms + ms <= a.0 * ms) && (a.0 + 7 <= c ==> a.0 * ms + 7 * ms
            <= c * ms) && (r + 1 <= a.1 ==> r * ms + ms <= a.1 * ms) && (a.1 + 7 <= r ==> a.1 * ms
            + 7 * ms <= r * ms)) by (nonlinear_arith)
            requires
                1 <= ms,
        ;
    }
}

/// Every shape painted by the module loop keeps clear of the finder
/// regions and stays inside the canvas: over one row prefix.
proof fn lemma_row_prefix_clear(
    m: Seq<Seq<bool>>,
    lay: Layout,
    style: ModuleStyle,
    row: int,
    col: int,
)
    requires
        lay.wf(),
        FINDER_SIZE <= lay.num_modules,
        0 <= row < lay.num_modules,
        0 <= col <= lay.num_modules,
    ensures
        forall|k: int|
            0 <= k < spec_row_prefix(m, lay, style, row, col).len() ==> {
                let s = #[trigger] spec_row_prefix(m, lay, style, row, col)[k];
                spec_clear_of_finders(lay, s) && spec_shape_in_canvas(s, lay.canvas_units as int)
            },
    decreases col,
{
    if col > 0 {
        lemma_row_prefix_clear(m, lay, style, row, col - 1);
        if m[row][col - 1] && !spec_in_finder(col - 1, row, lay.num_modules as int) {
            lemma_cell_shape_clear(m, lay, style, row, col - 1);
        }
    }
}

/// Every shape painted by the module loop keeps clear of the finder
/// regions and stays inside the canvas: over the first `row` rows.
proof fn lemma_rows_prefix_clear(m: Seq<Seq<bool>>, lay: Layout, style: ModuleStyle, row: int)
    requires
        lay.wf(),
        FINDER_SIZE <= lay.num_modules,
        0 <= row <= lay.num_modules,
    ensures
        forall|k: int|
            0 <= k < spec_rows_prefix(m, lay, style, row).len() ==> {
                let s = #[trigger] spec_rows_prefix(m, lay, style, row)[k];
                spec_clear_of_finders(lay, s) && spec_shape_in_canvas(s, lay.canvas_units as int)
            },
    decreases row,
{
    if row > 0 {
        lemma_rows_prefix_clear(m, lay, style, row - 1);
        lemma_row_prefix_clear(m, lay, style, row - 1, lay.num_modules as int);
    }
}

/// One row contributes at most one shape per cell.
proof fn lemma_row_prefix_len(m: Seq<Seq<bool>>, lay: Layout, style: ModuleStyle, row: int, col: int)
    requires
        0 <= col,
    ensures
        spec_row_prefix(m, lay, style, row, col).len() <= col,
    decreases col,
{
    if col > 0 {
        lemma_row_prefix_len(m, lay, style, row, col - 1);
    }
}

/// The module loop contributes at most one shape per matrix cell.
proof fn lemma_rows_prefix_len(m: Seq<Seq<bool>>, lay: Layout, style: ModuleStyle, row: int)
    requires
        0 <= row,
    ensures
        spec_rows_prefix(m, lay, style, row).len() <= row * lay.num_modules,
    decreases row,
{
    if row > 0 {
        lemma_rows_prefix_len(m, lay, style, row - 1);
        lemma_row_prefix_len(m, lay, style, row - 1, lay.num_modules as int);
        assert((row - 1) * lay.num_modules + lay.num_modules == row * lay.num_modules)
            by (nonlinear_arith);
    }
}

/// The scene holds the background, nine finder squares and at most one
/// shape per matrix cell.
pub proof fn lemma_scene_len(m: Seq<Seq<bool>>, lay: Layout, style: ModuleStyle)
    requires
        m.len() == lay.num_modules,
    ensures
        spec_scene(m, lay, style).len() <= 10 + lay.num_modules * lay.num_modules,
{
    lemma_rows_prefix_len(m, lay, style, m.len() as int);
}

/// Module painting and finder painting are mutually exclusive: a cell
/// inside a finder footprint contributes no shape at all, and every shape
/// the module loop does contribute is geometrically disjoint from all
/// three finder regions.
pub proof fn lemma_no_module_inside_finder(m: Seq<Seq<bool>>, lay: Layout, style: ModuleStyle)
    requires
        lay.wf(),
        spec_matrix_valid(m),
        m.len() == lay.num_modules,
    ensures
        forall|r: int, c: int|
            0 <= r < m.len() && 0 <= c < m.len() && spec_in_finder(c, r, lay.num_modules as int)
                ==> spec_cell_shapes(m, lay, style, r, c) == Seq::<Shape>::empty(),
        forall|k: int|
            0 <= k < spec_module_shapes(m, lay, style).len() ==> spec_clear_of_finders(
                lay,
                #[trigger] spec_module_shapes(m, lay, style)[k],
            ),
{
    lemma_rows_prefix_clear(m, lay, style, m.len() as int);
}

/// Every shape of the scene lies inside the canvas.
pub proof fn lemma_scene_in_canvas(m: Seq<Seq<bool>>, lay: Layout, style: ModuleStyle)
    requires
        lay.wf(),
        spec_matrix_valid(m),
        m.len() == lay.num_modules,
    ensures
        forall|k: int|
            0 <= k < spec_scene(m, lay, style).len() ==> spec_shape_in_canvas(
                #[trigger] spec_scene(m, lay, style)[k],
                lay.canvas_units as int,
            ),
{
    let n = lay.num_modules as int;
    let ms = lay.module_size as int;
    let off = lay.qr_offset as int;
    assert(off + 0 * ms + 7 * ms <= lay.canvas_units && off + (n - 7) * ms + 7 * ms
        <= lay.canvas_units && 0 <= (n - 7) * ms) by (nonlinear_arith)
        requires
            lay.wf(),
            7 <= n <= lay.num_modules,
            n == lay.num_modules,
            ms == lay.module_size,
            off == lay.qr_offset,
    ;
    lemma_rows_prefix_clear(m, lay, style, m.len() as int);
    let scene = spec_scene(m, lay, style);
    assert forall|k: int| 0 <= k < scene.len() implies spec_shape_in_canvas(
        scene[k],
        lay.canvas_units as int,
    ) by {
        if k >= 10 {
            assert(scene[k] == spec_module_shapes(m, lay, style)[k - 10]);
        }
    }
}

/// The scene opens with the white background and the nine finder-pattern
/// squares, whatever the matrix holds: two renders over any two matrices
/// of the same size place identical finder patterns.
pub proof fn lemma_finder_patterns_fixed(
    m1: Seq<Seq<bool>>,
    m2: Seq<Seq<bool>>,
    lay: Layout,
    style1: ModuleStyle,
    style2: ModuleStyle,
)
    requires
        lay.wf(),
        spec_matrix_valid(m1),
        spec_matrix_valid(m2),
        m1.len() == lay.num_modules,
        m2.len() == lay.num_modules,
    ensures
        spec_scene(m1, lay, style1)[0] == VectorCanvas::spec_background(lay.canvas_units),
        spec_scene(m1, lay, style1).subrange(1, 10) == spec_finders(lay),
        spec_scene(m1, lay, style1).subrange(1, 10) == spec_scene(m2, lay, style2).subrange(1, 10),
{
    assert(spec_scene(m1, lay, style1).subrange(1, 10) =~= spec_finders(lay));
    assert(spec_scene(m2, lay, style2).subrange(1, 10) =~= spec_finders(lay));
}

/// The central reserved region has an odd module count, at most a third
/// of the symbol plus one, and stays inside the module grid.
pub proof fn lemma_central_region_within_grid(lay: Layout)
    requires
        lay.wf(),
        1 <= lay.num_modules,
    ensures
        spec_central_modules(lay.num_modules) % 2 == 1,
        spec_central_modules(lay.num_modules) <= lay.num_modules / 3 + 1,
        1 <= spec_central_modules(lay.num_modules) <= lay.num_modules,
        spec_region_offset_units(lay) + spec_region_size_units(lay) <= lay.num_modules
            * lay.module_size,
{
    let n = lay.num_modules as int;
    let ms = lay.module_size as int;
    let t = n / 3;
    lemma_fundamental_div_mod(n, 3);
    lemma_mod_pos_bound(n, 3);
    let c = spec_central_modules(lay.num_modules);
    lemma_fundamental_div_mod(t, 2);
    lemma_mod_pos_bound(t, 2);
    if t % 2 == 0 {
        lemma_fundamental_div_mod_converse_mod(t + 1, 2, t / 2, 1);
    }
    assert(1 <= c <= n);
    let d = (n - c) * ms;
    lemma_fundamental_div_mod(d, 2);
    lemma_mod_pos_bound(d, 2);
    assert(0 <= d && d / 2 <= d && (n - c) * ms + c * ms == n * ms) by (nonlinear_arith)
        requires
            1 <= ms,
            1 <= c <= n,
            d == (n - c) * ms,
            d == 2 * (d / 2) + d % 2,
            0 <= d % 2 < 2,
    ;
}

/// Aspect-fit scaling preserves the aspect ratio exactly, up to the
/// rounding of one integer division: the longer side maps onto the
/// target, and the cross products of the two ratios differ by less than
/// one denominator.
pub proof fn lemma_aspect_fit_ratio(width: u32, height: u32, target: u32)
    requires
        1 <= width,
        1 <= height,
    ensures
        ({
            let sw = spec_fit_width(width, height, target);
            let sh = spec_fit_height(width, height, target);
            &&& (if sw >= sh {
                sw
            } else {
                sh
            }) == target
            &&& height > width ==> 0 <= target * width - sw * height < height
            &&& height <= width ==> 0 <= target * height - sh * width < width
        }),
{
    let t = target as int;
    let w = width as int;
    let h = height as int;
    if height > width {
        let sw = t * w / h;
        lemma_fundamental_div_mod(t * w, h);
        lemma_mod_pos_bound(t * w, h);
        assert(t * w == h * (t * w / h) + (t * w) % h);
        assert(0 <= t * w && h * sw == sw * h) by (nonlinear_arith)
            requires
                0 <= t,
                0 <= w,
                sw == t * w / h,
        ;
        assert(sw <= t) by {
            assert(t * w <= t * h && t * h == h * t) by (nonlinear_arith)
                requires
                    0 <= t,
                    0 <= w <= h,
            ;
            lemma_div_is_ordered(t * w, t * h, h);
            lemma_div_multiples_vanish(t, h);
        }
    } else {
        let sh = t * h / w;
        lemma_fundamental_div_mod(t * h, w);
        lemma_mod_pos_bound(t * h, w);
        assert(t * h == w * (t * h / w) + (t * h) % w);
        assert(0 <= t * h && w * sh == sh * w) by (nonlinear_arith)
            requires
                0 <= t,
                0 <= h,
                sh == t * h / w,
        ;
        assert(sh <= t) by {
            assert(t * h <= t * w && t * w == w * t) by (nonlinear_arith)
                requires
                    0 <= t,
                    0 <= h <= w,
            ;
            lemma_div_is_ordered(t * h, t * w, w);
            lemma_div_multiples_vanish(t, w);
        }
    }
}

} // verus!
