use qr_render::layout::{aspect_fit, central_modules, Layout};

#[test]
fn layout_for_typical_render() {
    // 21 modules at a requested 200-pixel export: working canvas 800,
    // grid 29, module size 27, centering remainder (800 - 783) / 2 = 8.
    let lay = Layout::new(21, 200);
    assert_eq!(lay.num_modules, 21);
    assert_eq!(lay.module_size, 27);
    assert_eq!(lay.canvas_units, 800);
    assert_eq!(lay.qr_offset, 4 * 27 + 8);
}

#[test]
fn layout_module_size_floors_at_one() {
    // A tiny requested size cannot give each module a unit: the module
    // size clamps to 1 and the canvas grows to hold the grid.
    let lay = Layout::new(21, 1);
    assert_eq!(lay.module_size, 1);
    assert_eq!(lay.canvas_units, 29);
    assert_eq!(lay.qr_offset, 4);
}

#[test]
fn layout_zero_request() {
    let lay = Layout::new(25, 0);
    assert_eq!(lay.module_size, 1);
    assert_eq!(lay.canvas_units, 33);
}

#[test]
fn central_modules_rounds_up_to_odd() {
    assert_eq!(central_modules(21), 7); // 21 / 3 = 7, already odd
    assert_eq!(central_modules(25), 9); // 25 / 3 = 8, rounded up
    assert_eq!(central_modules(27), 9);
    assert_eq!(central_modules(1), 1); // degenerate: 0 rounded up
    assert_eq!(central_modules(177), 59);
}

#[test]
fn aspect_fit_landscape() {
    // Wider than tall: the width maps onto the target.
    assert_eq!(aspect_fit(100, 50, 90), (90, 45));
    assert_eq!(aspect_fit(3, 2, 90), (90, 60));
}

#[test]
fn aspect_fit_portrait() {
    // Taller than wide: the height maps onto the target.
    assert_eq!(aspect_fit(50, 100, 90), (45, 90));
    assert_eq!(aspect_fit(2, 3, 90), (60, 90));
}

#[test]
fn aspect_fit_square_and_rounding() {
    assert_eq!(aspect_fit(10, 10, 90), (90, 90));
    // 90 * 2 / 3 = 60; 90 * 1 / 3 = 30; rounding goes down.
    assert_eq!(aspect_fit(3, 1, 100), (100, 33));
    assert_eq!(aspect_fit(1, 3, 100), (33, 100));
}

#[test]
fn aspect_fit_preserves_ratio_cross_product() {
    // |sw * h - sh * w| stays below the longer side's denominator.
    let cases: [(u32, u32, u32); 4] = [(640, 480, 42), (480, 640, 42), (7, 13, 100), (13, 7, 99)];
    for (w, h, t) in cases {
        let (sw, sh) = aspect_fit(w, h, t);
        let lhs = (sw as i64) * (h as i64);
        let rhs = (sh as i64) * (w as i64);
        if h > w {
            assert_eq!(sh, t);
            assert!(rhs <= (t as i64) * (w as i64));
            assert!((lhs - rhs).abs() < h as i64 * 1);
        } else {
            assert_eq!(sw, t);
            assert!((lhs - rhs).abs() < w as i64 * 1);
        }
        assert_eq!(sw.max(sh), t);
    }
}
