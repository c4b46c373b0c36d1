use qr_render::color::Color;
use qr_render::layout::Layout;
use qr_render::render::{build_scene, is_in_finder_pattern, matrix_valid, ModuleStyle, RenderError};
use qr_render::scene::Shape;
use qr_render::engine::render_svg_document;

fn square_matrix(n: usize, fill: bool) -> Vec<Vec<bool>> {
    vec![vec![fill; n]; n]
}

#[test]
fn finder_footprints_cover_three_corners() {
    // Top-left, top-right, bottom-left are footprints; bottom-right is not.
    assert!(is_in_finder_pattern(0, 0, 21));
    assert!(is_in_finder_pattern(6, 6, 21));
    assert!(!is_in_finder_pattern(7, 7, 21));
    assert!(is_in_finder_pattern(20, 0, 21));
    assert!(is_in_finder_pattern(0, 20, 21));
    assert!(!is_in_finder_pattern(20, 20, 21));
    assert!(!is_in_finder_pattern(10, 10, 21));
    assert!(is_in_finder_pattern(14, 3, 21));
    assert!(!is_in_finder_pattern(13, 3, 21));
}

#[test]
fn matrix_validation() {
    assert!(matrix_valid(&square_matrix(21, false)));
    assert!(matrix_valid(&square_matrix(25, true)));
    assert!(!matrix_valid(&Vec::new()));
    assert!(!matrix_valid(&square_matrix(1, true)));
    assert!(!matrix_valid(&square_matrix(20, true)));
    let mut ragged = square_matrix(21, false);
    ragged[5].pop();
    assert!(!matrix_valid(&ragged));
}

#[test]
fn degenerate_matrix_is_rejected() {
    // A 1x1 grid cannot hold 7x7 finder patterns: the render is refused
    // outright rather than clamped.
    let r = render_svg_document(&square_matrix(1, true), ModuleStyle::Square, 200);
    assert_eq!(r.unwrap_err(), RenderError::InvalidMatrix);
    let r = render_svg_document(&Vec::new(), ModuleStyle::Square, 200);
    assert_eq!(r.unwrap_err(), RenderError::InvalidMatrix);
}

#[test]
fn scene_shape_counts() {
    // All-dark 21x21: background + 9 finder rects + (441 - 3 * 49) modules.
    let lay = Layout::new(21, 200);
    let m = square_matrix(21, true);
    let canvas = build_scene(&m, lay, ModuleStyle::Circle);
    assert_eq!(canvas.shapes.len(), 1 + 9 + (441 - 147));
    // All-light matrix: only background and finder patterns.
    let empty = build_scene(&square_matrix(21, false), lay, ModuleStyle::Circle);
    assert_eq!(empty.shapes.len(), 10);
}

#[test]
fn scene_opens_with_background_and_finders() {
    let lay = Layout::new(21, 200);
    let ms = lay.module_size;
    let off = lay.qr_offset;
    let m = square_matrix(21, true);
    let canvas = build_scene(&m, lay, ModuleStyle::Square);
    assert_eq!(
        canvas.shapes[0],
        Shape::Rect { x: 0, y: 0, side: lay.canvas_units, color: Color::white() },
    );
    // The top-left finder pattern: 7x7 black, 5x5 white, 3x3 black.
    assert_eq!(
        canvas.shapes[1],
        Shape::Rect { x: off, y: off, side: 7 * ms, color: Color::black() },
    );
    assert_eq!(
        canvas.shapes[2],
        Shape::Rect { x: off + ms, y: off + ms, side: 5 * ms, color: Color::white() },
    );
    assert_eq!(
        canvas.shapes[3],
        Shape::Rect { x: off + 2 * ms, y: off + 2 * ms, side: 3 * ms, color: Color::black() },
    );
    // The top-right finder pattern is anchored 14 modules across.
    assert_eq!(
        canvas.shapes[4],
        Shape::Rect { x: off + 14 * ms, y: off, side: 7 * ms, color: Color::black() },
    );
    // And the bottom-left one 14 modules down.
    assert_eq!(
        canvas.shapes[7],
        Shape::Rect { x: off, y: off + 14 * ms, side: 7 * ms, color: Color::black() },
    );
}

#[test]
fn finder_patterns_independent_of_matrix() {
    // Any two matrices of one size paint the identical nine finder shapes.
    let lay = Layout::new(21, 200);
    let dark = build_scene(&square_matrix(21, true), lay, ModuleStyle::Square);
    let light = build_scene(&square_matrix(21, false), lay, ModuleStyle::Circle);
    assert_eq!(&dark.shapes[..10], &light.shapes[..10]);
}

#[test]
fn module_loop_skips_finder_footprints() {
    // One dark cell inside a footprint paints nothing beyond the finders.
    let mut m = square_matrix(21, false);
    m[3][3] = true;
    m[0][20] = true;
    m[20][0] = true;
    let lay = Layout::new(21, 200);
    let canvas = build_scene(&m, lay, ModuleStyle::Square);
    assert_eq!(canvas.shapes.len(), 10);
    // The same cells outside the footprints do get painted.
    let mut m2 = square_matrix(21, false);
    m2[10][3] = true;
    let canvas2 = build_scene(&m2, lay, ModuleStyle::Square);
    assert_eq!(canvas2.shapes.len(), 11);
    let ms = lay.module_size;
    assert_eq!(
        canvas2.shapes[10],
        Shape::Rect {
            x: lay.qr_offset + 3 * ms,
            y: lay.qr_offset + 10 * ms,
            side: ms,
            color: Color::black(),
        },
    );
}

#[test]
fn circle_style_paints_circles() {
    let mut m = square_matrix(21, false);
    m[10][10] = true;
    let lay = Layout::new(21, 200);
    let canvas = build_scene(&m, lay, ModuleStyle::Circle);
    let ms = lay.module_size;
    assert_eq!(
        canvas.shapes[10],
        Shape::Circle {
            x: lay.qr_offset + 10 * ms,
            y: lay.qr_offset + 10 * ms,
            diameter: ms,
            color: Color::black(),
        },
    );
}

#[test]
fn svg_document_mentions_scene() {
    let mut m = square_matrix(21, false);
    m[10][10] = true;
    let svg = render_svg_document(&m, ModuleStyle::Circle, 200).unwrap();
    let text = String::from_utf8(svg).unwrap();
    assert!(text.starts_with("<svg"));
    assert!(text.contains("viewBox=\"0 0 1600 1600\""));
    assert!(text.contains("width=\"200\""));
    assert!(text.contains("circle"));
    assert!(text.contains("rect"));
    assert!(text.contains("rgba(255,255,255,255)"));
    assert!(text.contains("rgba(0,0,0,255)"));
}

#[test]
fn rendering_twice_is_byte_identical() {
    let mut m = square_matrix(25, false);
    for i in 0..25 {
        m[i][(i * 7) % 25] = true;
    }
    let a = render_svg_document(&m, ModuleStyle::Circle, 300).unwrap();
    let b = render_svg_document(&m, ModuleStyle::Circle, 300).unwrap();
    assert_eq!(a, b);
    // A different style or matrix gives a different document.
    let c = render_svg_document(&m, ModuleStyle::Square, 300).unwrap();
    assert_ne!(a, c);
}

#[test]
fn oversized_request_is_refused() {
    let m = square_matrix(21, false);
    let r = render_svg_document(&m, ModuleStyle::Square, 20000);
    assert_eq!(r.unwrap_err(), RenderError::CanvasAllocationFailure);
}
