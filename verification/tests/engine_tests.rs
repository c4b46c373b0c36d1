use qrcode_generator::qr::{Encoder, ErrorCorrection};
use qr_render::engine::{compose_overlay, encode_buffer_png, render_image, render_raster};
use qr_render::pixels::PixelBuffer;
use qr_render::render::{ModuleStyle, RenderError};

fn solid(width: u32, height: u32, rgba: [u8; 4]) -> PixelBuffer {
    let mut data = Vec::new();
    for _ in 0..(width * height) {
        data.extend_from_slice(&rgba);
    }
    PixelBuffer::from_raw(width, height, data)
}

fn pixel(b: &PixelBuffer, x: u32, y: u32) -> [u8; 4] {
    let i = ((y * b.width + x) * 4) as usize;
    [b.data[i], b.data[i + 1], b.data[i + 2], b.data[i + 3]]
}

fn hello_matrix() -> Vec<Vec<bool>> {
    Encoder::new(ErrorCorrection::High).encode_text("Hello").unwrap().to_matrix()
}

#[test]
fn hello_end_to_end() {
    // "Hello" at high error correction gives the smallest real symbol.
    let matrix = hello_matrix();
    assert_eq!(matrix.len(), 21);
    let overlay = solid(4, 4, [200, 20, 20, 255]);
    let image = render_image(&matrix, ModuleStyle::Circle, &overlay, 200).unwrap();
    assert_eq!(image.width, 200);
    assert_eq!(image.height, 200);

    // Module size 27, offset 116 on the 800-unit canvas; a finder pattern
    // spans 189 units. Sample just inside each corner of each outer black
    // square, at the centre of a corner module.
    let corners_units: [(u32, u32); 3] = [(116, 116), (116 + 14 * 27, 116), (116, 116 + 14 * 27)];
    for (fx, fy) in corners_units {
        for (cx, cy) in [
            (fx + 13, fy + 13),
            (fx + 176, fy + 13),
            (fx + 13, fy + 176),
            (fx + 176, fy + 176),
        ] {
            let px = cx * 200 / 800;
            let py = cy * 200 / 800;
            let [r, g, b, a] = pixel(&image, px, py);
            assert_eq!(a, 255, "corner ({px},{py}) transparent");
            assert!(r < 100 && g < 100 && b < 100, "corner ({px},{py}) not dark");
        }
    }

    // The quiet zone stays white and opaque.
    assert_eq!(pixel(&image, 5, 5), [255, 255, 255, 255]);

    // The centred reserved square holds the red overlay: non-white.
    let [r, g, _, a] = pixel(&image, 100, 100);
    assert_eq!(a, 255);
    assert!(r > 140 && g < 120, "centre not overlaid");
}

#[test]
fn png_export_signature_and_determinism() {
    let matrix = hello_matrix();
    let overlay = solid(3, 5, [10, 60, 220, 255]);
    let image = render_image(&matrix, ModuleStyle::Square, &overlay, 120).unwrap();
    let png = encode_buffer_png(&image).unwrap();
    assert_eq!(&png[..8], &[137, 80, 78, 71, 13, 10, 26, 10]);

    let image2 = render_image(&matrix, ModuleStyle::Square, &overlay, 120).unwrap();
    assert_eq!(image.data, image2.data);
}

#[test]
fn raster_without_overlay_has_white_quiet_zone() {
    let matrix = hello_matrix();
    let image = render_raster(&matrix, ModuleStyle::Square, 200).unwrap();
    assert_eq!(image.width, 200);
    assert_eq!(pixel(&image, 2, 2), [255, 255, 255, 255]);
    // The centre of the top-left finder is black again (the 3x3 core).
    let [r, _, _, a] = pixel(&image, (116 + 94) * 200 / 800, (116 + 94) * 200 / 800);
    assert_eq!(a, 255);
    assert!(r < 60);
}

#[test]
fn error_taxonomy() {
    let overlay = solid(2, 2, [0, 0, 0, 255]);
    let bad = vec![vec![true; 3]; 2];
    assert_eq!(
        render_image(&bad, ModuleStyle::Square, &overlay, 100).unwrap_err(),
        RenderError::InvalidMatrix,
    );
    let matrix = hello_matrix();
    assert_eq!(
        render_image(&matrix, ModuleStyle::Square, &overlay, 0).unwrap_err(),
        RenderError::CanvasAllocationFailure,
    );
    let empty_overlay = PixelBuffer::from_raw(0, 3, Vec::new());
    assert_eq!(
        render_image(&matrix, ModuleStyle::Square, &empty_overlay, 100).unwrap_err(),
        RenderError::OverlayDecodeFailure,
    );
}

#[test]
fn overlay_is_aspect_fitted() {
    // A wide overlay: its height shrinks by the same factor, so rows above
    // and below the fitted logo inside the reserved square keep the
    // underlying rendering (white, inside the light centre of the symbol),
    // while the logo's own band is red.
    let matrix = hello_matrix();
    let overlay = solid(100, 20, [220, 10, 10, 255]);
    let image = render_image(&matrix, ModuleStyle::Square, &overlay, 200).unwrap();
    let [r, g, _, _] = pixel(&image, 100, 100);
    assert!(r > 140 && g < 120, "logo band missing at centre");
    // Region: offset 76 px, size 47 px; target 42x8 centred => the band
    // spans rows ~95..104; row 80 lies inside the region but above it.
    let [_, _, _, a] = pixel(&image, 100, 80);
    assert_eq!(a, 255);
    let [r2, g2, b2, _] = pixel(&image, 100, 80);
    assert!(!(r2 > 140 && g2 < 120), "above the band should not be logo red");
    let _ = b2;
}

#[test]
fn overlay_placement_geometry() {
    // 21 modules at 100 pixels: module size 13, offset 63, canvas 400.
    // Central region: 7 modules = 91 units -> 22 px wide at offset 38 px;
    // target 19; a square overlay lands at (39, 39) .. (58, 58).
    let mut base = solid(100, 100, [255, 255, 255, 255]);
    let overlay = solid(10, 10, [10, 20, 200, 255]);
    compose_overlay(&mut base, &overlay, 21, 100).unwrap();
    assert_eq!(pixel(&base, 45, 45), [10, 20, 200, 255]);
    assert_eq!(pixel(&base, 39, 39), [10, 20, 200, 255]);
    assert_eq!(pixel(&base, 57, 57), [10, 20, 200, 255]);
    assert_eq!(pixel(&base, 38, 38), [255, 255, 255, 255]);
    assert_eq!(pixel(&base, 58, 58), [255, 255, 255, 255]);
    assert_eq!(pixel(&base, 30, 70), [255, 255, 255, 255]);
}
