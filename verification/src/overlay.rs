//! Resampling of the overlay logo, through the `image` crate.

use vstd::prelude::*;

verus! {

/// The Lanczos3 resampling of an RGBA image to new dimensions: a function
/// of the pixel bytes and the four dimensions alone.
pub uninterp spec fn lanczos_of(data: Seq<u8>, w: u32, h: u32, nw: u32, nh: u32) -> Seq<u8>;

/// Relies on `image::imageops::resize` with the Lanczos3 filter (via
/// `image::RgbaImage::from_raw`): resamples the `w x h` RGBA buffer to
/// `nw x nh`, whose buffer has four bytes per new pixel.
#[verifier::external_body]
pub fn resize_rgba(data: &Vec<u8>, w: u32, h: u32, nw: u32, nh: u32) -> (r: Vec<u8>)
    requires
        data@.len() == w * h * 4,
        1 <= w,
        1 <= h,
        1 <= nw <= 65536,
        1 <= nh <= 65536,
    ensures
        r@ == lanczos_of(data@, w, h, nw, nh),
        r@.len() == nw * nh * 4,
{
    let img = match image::RgbaImage::from_raw(w, h, data.clone()) {
        Some(img) => img,
        None => return Vec::new(),
    };
    let resized = image::imageops::resize(&img, nw, nh, image::imageops::FilterType::Lanczos3);
    resized.into_raw()
}

} // verus!
