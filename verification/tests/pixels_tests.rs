use qr_render::pixels::{blend, PixelBuffer};

fn solid(width: u32, height: u32, rgba: [u8; 4]) -> PixelBuffer {
    let mut data = Vec::new();
    for _ in 0..(width * height) {
        data.extend_from_slice(&rgba);
    }
    PixelBuffer::from_raw(width, height, data)
}

fn pixel(b: &PixelBuffer, x: u32, y: u32) -> [u8; 4] {
    let i = ((y * b.width + x) * 4) as usize;
    [b.data[i], b.data[i + 1], b.data[i + 2], b.data[i + 3]]
}

#[test]
fn blend_extremes() {
    // Fully opaque source replaces; 255 * 255 / 255 = source.
    assert_eq!(blend(0, 200, 255), 200);
    assert_eq!(blend(255, 0, 255), 0);
    // Fully transparent source keeps the destination.
    assert_eq!(blend(123, 45, 0), 123);
}

#[test]
fn blend_midpoint() {
    // (255 * 128 + 0 * 127) / 255 = 128.
    assert_eq!(blend(0, 255, 128), 128);
    // (0 * 128 + 255 * 127) / 255 = 127.
    assert_eq!(blend(255, 0, 128), 127);
    assert_eq!(blend(100, 100, 77), 100);
}

#[test]
fn composite_opaque_replaces_covered_pixels() {
    let mut dst = solid(3, 3, [255, 255, 255, 255]);
    let src = solid(2, 1, [10, 20, 30, 255]);
    dst.composite_image(1, 1, &src);
    assert_eq!(dst.width, 3);
    assert_eq!(dst.height, 3);
    assert_eq!(pixel(&dst, 0, 0), [255, 255, 255, 255]);
    assert_eq!(pixel(&dst, 1, 1), [10, 20, 30, 255]);
    assert_eq!(pixel(&dst, 2, 1), [10, 20, 30, 255]);
    assert_eq!(pixel(&dst, 1, 2), [255, 255, 255, 255]);
    assert_eq!(pixel(&dst, 2, 2), [255, 255, 255, 255]);
}

#[test]
fn composite_transparent_changes_nothing() {
    let mut dst = solid(2, 2, [9, 8, 7, 255]);
    let before = dst.data.clone();
    let src = solid(2, 2, [200, 200, 200, 0]);
    dst.composite_image(0, 0, &src);
    assert_eq!(dst.data, before);
}

#[test]
fn composite_blends_half_alpha() {
    let mut dst = solid(1, 1, [0, 0, 0, 255]);
    let src = solid(1, 1, [255, 101, 0, 128]);
    dst.composite_image(0, 0, &src);
    // (255 * 128) / 255 = 128; (101 * 128) / 255 = 50; alpha stays opaque.
    assert_eq!(pixel(&dst, 0, 0), [128, 50, 0, 255]);
}

#[test]
fn composite_clips_outside_destination() {
    let mut dst = solid(2, 2, [1, 2, 3, 255]);
    let src = solid(3, 3, [50, 60, 70, 255]);
    dst.composite_image(1, 1, &src);
    assert_eq!(pixel(&dst, 0, 0), [1, 2, 3, 255]);
    assert_eq!(pixel(&dst, 1, 0), [1, 2, 3, 255]);
    assert_eq!(pixel(&dst, 0, 1), [1, 2, 3, 255]);
    assert_eq!(pixel(&dst, 1, 1), [50, 60, 70, 255]);
}
