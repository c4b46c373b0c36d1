//! The renderer: validation of the module matrix, finder-pattern and
//! data-module placement, and the central reserved region.

use vstd::prelude::*;
use crate::color::Color;
use crate::layout::{Layout, MAX_MODULES, MAX_FINAL_SIZE, spec_central_modules, central_modules};
use crate::scene::{Shape, VectorCanvas};

verus! {

/// Side length of a finder pattern, in modules.
pub const FINDER_SIZE: u32 = 7;

/// Smallest real QR symbol side length; smaller matrices are rejected.
pub const MIN_MODULES: u32 = 21;

/// How "on" modules outside the finder patterns are drawn.
#[derive(Clone, Copy, Debug, PartialEq, Eq, Structural)]
pub enum ModuleStyle {
    /// A filled square covering the whole module.
    Square,
    /// A filled circle inscribed in the module.
    Circle,
}

/// Why a render operation failed. All failures are terminal: no partial
/// output is produced.
#[derive(Clone, Copy, Debug, PartialEq, Eq, Structural)]
pub enum RenderError {
    /// The module grid is empty, not square, or smaller than a real QR symbol.
    InvalidMatrix,
    /// The overlay pixel buffer is unusable (zero-sized or inconsistent).
    OverlayDecodeFailure,
    /// The vector scene could not be converted to pixels.
    RasterizationFailure,
    /// The requested canvas exceeds what can be allocated or addressed.
    CanvasAllocationFailure,
}

/// Whether module column `x`, row `y` lies inside one of the three
/// finder-pattern footprints of a symbol `n` modules wide: top-left,
/// top-right and bottom-left, each `FINDER_SIZE x FINDER_SIZE` modules.
pub open spec fn spec_in_finder(x: int, y: int, n: int) -> bool {
    ||| (x < FINDER_SIZE && y < FINDER_SIZE)
    ||| (x < FINDER_SIZE && y >= n - FINDER_SIZE)
    ||| (x >= n - FINDER_SIZE && y < FINDER_SIZE)
}

/// Decide whether module column `x`, row `y` falls inside one of the three
/// finder-pattern footprints.
pub fn is_in_finder_pattern(x: u32, y: u32, num_modules: u32) -> (r: bool)
    requires
        FINDER_SIZE <= num_modules,
    ensures
        r == spec_in_finder(x as int, y as int, num_modules as int),
{
    (x < 7 && y < 7) || (x < 7 && y >= num_modules - 7) || (x >= num_modules - 7 && y < 7)
}

/// A matrix is valid when it is square with a real QR side length that the
/// engine's unit arithmetic can address.
pub open spec fn spec_matrix_valid(m: Seq<Seq<bool>>) -> bool {
    &&& MIN_MODULES <= m.len() <= MAX_MODULES
    &&& forall|i: int| 0 <= i < m.len() ==> (#[trigger] m[i]).len() == m.len()
}

/// Check that the matrix is square and of an acceptable side length.
pub fn matrix_valid(matrix: &Vec<Vec<bool>>) -> (r: bool)
    ensures
        r == spec_matrix_valid(matrix.deep_view()),
{
    let n = matrix.len();
    if n < MIN_MODULES as usize || n > MAX_MODULES as usize {
        return false;
    }
    let mut i: usize = 0;
    while i < n
        invariant
            0 <= i <= n,
            n == matrix.deep_view().len(),
            MIN_MODULES <= n <= MAX_MODULES,
            forall|j: int| 0 <= j < i ==> (#[trigger] matrix.deep_view()[j]).len() == n,
        decreases n - i,
    {
        proof {
            assert(matrix.deep_view()[i as int].len() == matrix@[i as int]@.len());
        }
        if matrix[i].len() != n {
            return false;
        }
        i += 1;
    }
    true
}

/// The three nested squares of one finder pattern, anchored at
/// module-relative units `(fx, fy)`: 7x7 black, 5x5 white inset by one
/// module, 3x3 black inset by two.
pub open spec fn spec_finder_shapes(lay: Layout, fx: int, fy: int) -> Seq<Shape> {
    let off = lay.qr_offset as int;
    let ms = lay.module_size as int;
    seq![
        Shape::Rect {
            x: (off + fx) as u32,
            y: (off + fy) as u32,
            side: (7 * ms) as u32,
            color: Color::spec_black(),
        },
        Shape::Rect {
            x: (off + fx + ms) as u32,
            y: (off + fy + ms) as u32,
            side: (5 * ms) as u32,
            color: Color::spec_white(),
        },
        Shape::Rect {
            x: (off + fx + 2 * ms) as u32,
            y: (off + fy + 2 * ms) as u32,
            side: (3 * ms) as u32,
            color: Color::spec_black(),
        },
    ]
}

/// The nine shapes of the three finder patterns: top-left, top-right,
/// bottom-left.
pub open spec fn spec_finders(lay: Layout) -> Seq<Shape> {
    let ms = lay.module_size as int;
    let far = (lay.num_modules - FINDER_SIZE) * ms;
    spec_finder_shapes(lay, 0, 0) + spec_finder_shapes(lay, far, 0) + spec_finder_shapes(
        lay,
        0,
        far,
    )
}

/// The shape painted for the "on" module at row `row`, column `col`, with
/// x taken from the column and y from the row.
pub open spec fn spec_module_shape(lay: Layout, row: int, col: int, style: ModuleStyle) -> Shape {
    let x = (lay.qr_offset + col * lay.module_size) as u32;
    let y = (lay.qr_offset + row * lay.module_size) as u32;
    match style {
        ModuleStyle::Square => Shape::Rect {
            x,
            y,
            side: lay.module_size,
            color: Color::spec_black(),
        },
        ModuleStyle::Circle => Shape::Circle {
            x,
            y,
            diameter: lay.module_size,
            color: Color::spec_black(),
        },
    }
}

/// The shapes contributed by one cell: one module shape when the cell is
/// on and outside every finder footprint, none otherwise.
pub open spec fn spec_cell_shapes(
    m: Seq<Seq<bool>>,
    lay: Layout,
    style: ModuleStyle,
    row: int,
    col: int,
) -> Seq<Shape> {
    if m[row][col] && !spec_in_finder(col, row, lay.num_modules as int) {
        seq![spec_module_shape(lay, row, col, style)]
    } else {
        Seq::empty()
    }
}

/// The shapes of row `row`'s first `col` cells, in column order.
pub open spec fn spec_row_prefix(
    m: Seq<Seq<bool>>,
    lay: Layout,
    style: ModuleStyle,
    row: int,
    col: int,
) -> Seq<Shape>
    decreases col,
{
    if col <= 0 {
        Seq::empty()
    } else {
        spec_row_prefix(m, lay, style, row, col - 1) + spec_cell_shapes(m, lay, style, row, col - 1)
    }
}

/// The shapes of the first `row` full rows, in row-major order.
pub open spec fn spec_rows_prefix(
    m: Seq<Seq<bool>>,
    lay: Layout,
    style: ModuleStyle,
    row: int,
) -> Seq<Shape>
    decreases row,
{
    if row <= 0 {
        Seq::empty()
    } else {
        spec_rows_prefix(m, lay, style, row - 1) + spec_row_prefix(
            m,
            lay,
            style,
            row - 1,
            lay.num_modules as int,
        )
    }
}

/// All module shapes of the matrix.
pub open spec fn spec_module_shapes(m: Seq<Seq<bool>>, lay: Layout, style: ModuleStyle) -> Seq<
    Shape,
> {
    spec_rows_prefix(m, lay, style, m.len() as int)
}

/// The whole scene: white background, the three finder patterns, then
/// every painted module in row-major order.
pub open spec fn spec_scene(m: Seq<Seq<bool>>, lay: Layout, style: ModuleStyle) -> Seq<Shape> {
    seq![VectorCanvas::spec_background(lay.canvas_units)] + spec_finders(lay)
        + spec_module_shapes(m, lay, style)
}

/// A module cell's square, quiet zone included, stays inside the canvas.
proof fn lemma_cell_in_canvas(lay: Layout, i: int)
    requires
        lay.wf(),
        0 <= i < lay.num_modules,
    ensures
        lay.qr_offset + i * lay.module_size + lay.module_size <= lay.canvas_units,
{
    assert(lay.qr_offset + i * lay.module_size + lay.module_size <= lay.canvas_units)
        by (nonlinear_arith)
        requires
            lay.wf(),
            0 <= i < lay.num_modules,
    ;
}

/// A finder pattern anchored `i` modules into the grid stays inside the
/// canvas when its 7-module footprint does.
proof fn lemma_finder_in_canvas(lay: Layout, i: int)
    requires
        lay.wf(),
        0 <= i,
        i + 7 <= lay.num_modules,
    ensures
        lay.qr_offset + i * lay.module_size + 7 * lay.module_size <= lay.canvas_units,
{
    assert(lay.qr_offset + i * lay.module_size + 7 * lay.module_size <= lay.canvas_units)
        by (nonlinear_arith)
        requires
            lay.wf(),
            0 <= i,
            i + 7 <= lay.num_modules,
    ;
}

/// Paint one finder pattern anchored at module-relative units `(fx, fy)`.
fn add_finder_pattern(canvas: &mut VectorCanvas, lay: Layout, fx: u32, fy: u32)
    requires
        lay.wf(),
        old(canvas).units == lay.canvas_units,
        old(canvas).offset == lay.qr_offset,
        fx + 7 * lay.module_size + lay.qr_offset <= lay.canvas_units,
        fy + 7 * lay.module_size + lay.qr_offset <= lay.canvas_units,
    ensures
        final(canvas).units == old(canvas).units,
        final(canvas).offset == old(canvas).offset,
        final(canvas).shapes@ == old(canvas).shapes@ + spec_finder_shapes(
            lay,
            fx as int,
            fy as int,
        ),
{
    let ms = lay.module_size;
    canvas.fill_rect(fx, fy, 7 * ms, Color::black());
    canvas.fill_rect(fx + ms, fy + ms, 5 * ms, Color::white());
    canvas.fill_rect(fx + 2 * ms, fy + 2 * ms, 3 * ms, Color::black());
    proof {
        assert(canvas.shapes@ =~= old(canvas).shapes@ + spec_finder_shapes(
            lay,
            fx as int,
            fy as int,
        ));
    }
}

/// Build the vector scene for a validated matrix: background, the three
/// finder patterns, then every "on" module outside the finder footprints,
/// drawn in the chosen style.
pub fn build_scene(matrix: &Vec<Vec<bool>>, lay: Layout, style: ModuleStyle) -> (canvas:
    VectorCanvas)
    requires
        lay.wf(),
        spec_matrix_valid(matrix.deep_view()),
        matrix.deep_view().len() == lay.num_modules,
    ensures
        canvas.units == lay.canvas_units,
        canvas.offset == lay.qr_offset,
        canvas.shapes@ == spec_scene(matrix.deep_view(), lay, style),
{
    let ghost m = matrix.deep_view();
    let n = lay.num_modules;
    let ms = lay.module_size;
    let mut canvas = VectorCanvas::new(lay.canvas_units, lay.qr_offset);
    proof {
        lemma_finder_in_canvas(lay, 0);
        lemma_finder_in_canvas(lay, n - 7);
        assert((n - 7) * ms + 7 * ms == n as int * ms) by (nonlinear_arith);
    }
    let far = (n - 7) * ms;
    add_finder_pattern(&mut canvas, lay, 0, 0);
    add_finder_pattern(&mut canvas, lay, far, 0);
    add_finder_pattern(&mut canvas, lay, 0, far);
    proof {
        assert(canvas.shapes@ =~= seq![VectorCanvas::spec_background(lay.canvas_units)]
            + spec_finders(lay));
    }
    let ghost base = canvas.shapes@;
    let mut row: u32 = 0;
    while row < n
        invariant
            lay.wf(),
            spec_matrix_valid(m),
            m == matrix.deep_view(),
            m.len() == lay.num_modules,
            n == lay.num_modules,
            ms == lay.module_size,
            0 <= row <= n,
            canvas.units == lay.canvas_units,
            canvas.offset == lay.qr_offset,
            canvas.shapes@ == base + spec_rows_prefix(m, lay, style, row as int),
            base == seq![VectorCanvas::spec_background(lay.canvas_units)] + spec_finders(lay),
        decreases n - row,
    {
        let mut col: u32 = 0;
        while col < n
            invariant
                lay.wf(),
                spec_matrix_valid(m),
                m == matrix.deep_view(),
                m.len() == lay.num_modules,
                n == lay.num_modules,
                ms == lay.module_size,
                0 <= row < n,
                0 <= col <= n,
                canvas.units == lay.canvas_units,
                canvas.offset == lay.qr_offset,
                canvas.shapes@ == base + spec_rows_prefix(m, lay, style, row as int)
                    + spec_row_prefix(m, lay, style, row as int, col as int),
            decreases n - col,
        {
            if matrix[row as usize][col as usize] && !is_in_finder_pattern(col, row, n) {
                proof {
                    lemma_cell_in_canvas(lay, col as int);
                    lemma_cell_in_canvas(lay, row as int);
                }
                match style {
                    ModuleStyle::Square => {
                        canvas.fill_rect(col * ms, row * ms, ms, Color::black());
                    },
                    ModuleStyle::Circle => {
                        canvas.fill_circle(col * ms, row * ms, ms, Color::black());
                    },
                }
            }
            proof {
                assert(canvas.shapes@ =~= base + spec_rows_prefix(m, lay, style, row as int)
                    + spec_row_prefix(m, lay, style, row as int, col as int + 1));
            }
            col += 1;
        }
        proof {
            assert(canvas.shapes@ =~= base + spec_rows_prefix(m, lay, style, row as int + 1));
        }
        row += 1;
    }
    proof {
        assert(canvas.shapes@ =~= spec_scene(m, lay, style));
    }
    canvas
}

} // verus!
