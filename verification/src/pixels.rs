//! Raster pixel buffers and alpha-over compositing of the overlay image.

use vstd::prelude::*;
use vstd::arithmetic::div_mod::lemma_fundamental_div_mod_converse;

verus! {

/// A dense row-major RGBA pixel buffer, four bytes per pixel.
#[derive(Debug)]
pub struct PixelBuffer {
    /// Width in pixels.
    pub width: u32,
    /// Height in pixels.
    pub height: u32,
    /// Row-major RGBA bytes, exactly `width * height * 4` of them.
    pub data: Vec<u8>,
}

/// One channel blended by alpha-over: the source weighted by `a`, the
/// destination by `255 - a`, in 255ths rounded down.
pub open spec fn spec_blend(d: u8, s: u8, a: u8) -> u8 {
    ((s * a + d * (255 - a)) / 255) as u8
}

/// Byte `i` of a `dw`-wide buffer `dst` after compositing the `sw x sh`
/// buffer `src` with its top-left corner at pixel `(ox, oy)`: inside the
/// overlain region each color channel is blended by the source pixel's
/// alpha and the alpha channel is blended toward opaque; all other bytes
/// keep their value. Source pixels falling outside `dst` are clipped
/// silently.
pub open spec fn spec_composite_byte(
    dst: Seq<u8>,
    dw: int,
    src: Seq<u8>,
    sw: int,
    sh: int,
    ox: int,
    oy: int,
    i: int,
) -> u8 {
    let p = i / 4;
    let c = i % 4;
    let x = p % dw;
    let y = p / dw;
    if ox <= x < ox + sw && oy <= y < oy + sh {
        let s = ((y - oy) * sw + (x - ox)) * 4;
        let a = src[s + 3];
        if c == 3 {
            spec_blend(dst[i], 255u8, a)
        } else {
            spec_blend(dst[i], src[s + c], a)
        }
    } else {
        dst[i]
    }
}

/// A whole buffer after compositing, byte for byte.
pub open spec fn spec_composited(
    dst: Seq<u8>,
    dw: int,
    src: Seq<u8>,
    sw: int,
    sh: int,
    ox: int,
    oy: int,
) -> Seq<u8> {
    Seq::new(dst.len(), |i: int| spec_composite_byte(dst, dw, src, sw, sh, ox, oy, i))
}

impl PixelBuffer {
    /// Well-formedness: the byte count matches the dimensions, which stay
    /// small enough for all index arithmetic.
    pub open spec fn wf(self) -> bool {
        &&& self.data@.len() == self.width * self.height * 4
        &&& self.width <= 65536
        &&& self.height <= 65536
    }

    /// Channel `c` (0 red, 1 green, 2 blue, 3 alpha) of pixel `(x, y)`.
    pub open spec fn spec_channel(self, x: int, y: int, c: int) -> u8 {
        self.data@[(y * self.width + x) * 4 + c]
    }

    /// Create a buffer from raw RGBA bytes.
    pub fn from_raw(width: u32, height: u32, data: Vec<u8>) -> (b: PixelBuffer)
        requires
            data@.len() == width * height * 4,
            width <= 65536,
            height <= 65536,
        ensures
            b.wf(),
            b.width == width,
            b.height == height,
            b.data == data,
    {
        PixelBuffer { width, height, data }
    }

    /// Composite `src` onto this buffer with its top-left corner at pixel
    /// `(ox, oy)`, blending every covered pixel by the source alpha.
    pub fn composite_image(&mut self, ox: u32, oy: u32, src: &PixelBuffer)
        requires
            old(self).wf(),
            src.wf(),
        ensures
            final(self).wf(),
            final(self).width == old(self).width,
            final(self).height == old(self).height,
            final(self).data@ == spec_composited(
                old(self).data@,
                old(self).width as int,
                src.data@,
                src.width as int,
                src.height as int,
                ox as int,
                oy as int,
            ),
    {
        let w = self.width;
        let h = self.height;
        let mut out: Vec<u8> = Vec::new();
        let mut y: u32 = 0;
        while y < h
            invariant
                old(self).wf(),
                src.wf(),
                *self == *old(self),
                w == self.width,
                h == self.height,
                0 <= y <= h,
                out@.len() == y * w * 4,
                forall|i: int|
                    0 <= i < out@.len() ==> out@[i] == spec_composite_byte(
                        old(self).data@,
                        old(self).width as int,
                        src.data@,
                        src.width as int,
                        src.height as int,
                        ox as int,
                        oy as int,
                        i,
                    ),
            decreases h - y,
        {
            let mut x: u32 = 0;
            proof {
                assert((y * w + 0) * 4 == y * w * 4) by (nonlinear_arith);
            }
            while x < w
                invariant
                    old(self).wf(),
                    src.wf(),
                    *self == *old(self),
                    w == self.width,
                    h == self.height,
                    0 <= y < h,
                    0 <= x <= w,
                    out@.len() == (y * w + x) * 4,
                    forall|i: int|
                        0 <= i < out@.len() ==> out@[i] == spec_composite_byte(
                            old(self).data@,
                            old(self).width as int,
                            src.data@,
                            src.width as int,
                            src.height as int,
                            ox as int,
                            oy as int,
                            i,
                        ),
                decreases w - x,
            {
                emit_pixel(&mut out, self, src, ox, oy, x, y);
                x += 1;
            }
            proof {
                assert((y * w + w) * 4 == (y + 1) * w * 4) by (nonlinear_arith);
            }
            y += 1;
        }
        proof {
            assert(h * w * 4 == w * h * 4) by (nonlinear_arith);
            assert(out@ =~= spec_composited(
                old(self).data@,
                old(self).width as int,
                src.data@,
                src.width as int,
                src.height as int,
                ox as int,
                oy as int,
            ));
        }
        self.data = out;
    }
}

/// Append the four composited bytes of destination pixel `(x, y)`.
fn emit_pixel(out: &mut Vec<u8>, dst: &PixelBuffer, src: &PixelBuffer, ox: u32, oy: u32, x: u32, y:
    u32)
    requires
        dst.wf(),
        src.wf(),
        x < dst.width,
        y < dst.height,
        old(out)@.len() == (y * dst.width + x) * 4,
        forall|i: int|
            0 <= i < old(out)@.len() ==> old(out)@[i] == spec_composite_byte(
                dst.data@,
                dst.width as int,
                src.data@,
                src.width as int,
                src.height as int,
                ox as int,
                oy as int,
                i,
            ),
    ensures
        final(out)@.len() == old(out)@.len() + 4,
        forall|i: int|
            0 <= i < final(out)@.len() ==> final(out)@[i] == spec_composite_byte(
                dst.data@,
                dst.width as int,
                src.data@,
                src.width as int,
                src.height as int,
                ox as int,
                oy as int,
                i,
            ),
{
    let w = dst.width;
    let ghost p = y as int * w as int + x as int;
    proof {
        lemma_fundamental_div_mod_converse(p, w as int, y as int, x as int);
        assert(p * 4 + 4 <= dst.width * dst.height * 4 && y * w <= p && p <= p * 4)
            by (nonlinear_arith)
            requires
                0 <= x < dst.width,
                0 <= y < dst.height,
                p == y * dst.width + x,
                w == dst.width,
        ;
        lemma_fundamental_div_mod_converse(p * 4, 4, p, 0);
        lemma_fundamental_div_mod_converse(p * 4 + 1, 4, p, 1);
        lemma_fundamental_div_mod_converse(p * 4 + 2, 4, p, 2);
        lemma_fundamental_div_mod_converse(p * 4 + 3, 4, p, 3);
    }
    let dl = dst.data.len();
    let base: usize = ((y as usize) * (w as usize) + (x as usize)) * 4;
    let inside = ox <= x && x < ox + src.width && oy <= y && y < oy + src.height;
    if inside {
        let sx = x - ox;
        let sy = y - oy;
        let ghost sp = sy as int * src.width as int + sx as int;
        proof {
            assert(sp * 4 + 4 <= src.width * src.height * 4 && sy * src.width <= sp && sp <= sp
                * 4) by (nonlinear_arith)
                requires
                    0 <= sx < src.width,
                    0 <= sy < src.height,
                    sp == sy * src.width + sx,
            ;
        }
        let sl = src.data.len();
        let sidx: usize = ((sy as usize) * (src.width as usize) + (sx as usize)) * 4;
        let a = src.data[sidx + 3];
        out.push(blend(dst.data[base], src.data[sidx], a));
        out.push(blend(dst.data[base + 1], src.data[sidx + 1], a));
        out.push(blend(dst.data[base + 2], src.data[sidx + 2], a));
        out.push(blend(dst.data[base + 3], 255, a));
    } else {
        out.push(dst.data[base]);
        out.push(dst.data[base + 1]);
        out.push(dst.data[base + 2]);
        out.push(dst.data[base + 3]);
    }
}

/// Blend one channel of a source pixel with alpha `a` over a destination
/// channel.
pub fn blend(d: u8, s: u8, a: u8) -> (r: u8)
    ensures
        r == spec_blend(d, s, a),
{
    proof {
        assert(s * a + d * (255 - a) <= 255 * 255 && (s * a + d * (255 - a)) / 255 <= 255)
            by (nonlinear_arith)
            requires
                0 <= s <= 255,
                0 <= d <= 255,
                0 <= a <= 255,
        ;
    }
    let v: u32 = (s as u32) * (a as u32) + (d as u32) * (255 - a as u32);
    (v / 255) as u8
}

} // verus!
