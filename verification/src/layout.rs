//! The layout calculator: module size, canvas size and grid offset,
//! plus the central-region and aspect-fit geometry.

use vstd::prelude::*;
use vstd::arithmetic::div_mod::{
    lemma_fundamental_div_mod, lemma_div_is_ordered, lemma_div_multiples_vanish,
};

verus! {

/// Largest module count the engine accepts: a machine bound that keeps
/// all unit arithmetic within `u32` and the exported document within the
/// SVG parser's element limit; a real QR symbol has at most 177.
pub const MAX_MODULES: u32 = 512;

/// Largest requested raster side length the engine accepts (a machine
/// bound so that the 4x working canvas stays within `u32` arithmetic).
pub const MAX_FINAL_SIZE: u32 = 16384;

/// Width of the quiet zone on each side of the symbol, in modules.
pub const QUIET_ZONE: u32 = 4;

/// Placement of the module grid on the working canvas, derived once per
/// render from the module count and the requested output size.
#[derive(Clone, Copy, Debug, PartialEq, Eq, Structural)]
pub struct Layout {
    /// Side length of the module matrix, in modules.
    pub num_modules: u32,
    /// Side length of one module, in canvas units.
    pub module_size: u32,
    /// Offset of the grid's top-left corner within the canvas, in units.
    pub qr_offset: u32,
    /// Side length of the whole canvas, in units.
    pub canvas_units: u32,
}

/// The grid spans the modules plus a quiet zone on every side.
pub open spec fn spec_grid_length(n: u32) -> int {
    n + 2 * QUIET_ZONE
}

/// Module side length: the working canvas (4x the requested raster size)
/// divided by the grid length, floored, and at least 1.
pub open spec fn spec_module_size(n: u32, final_size: u32) -> int {
    let q = 4 * final_size / spec_grid_length(n);
    if q >= 1 {
        q
    } else {
        1
    }
}

/// Canvas side length: the working size, or the quantized grid if the
/// working size cannot hold even one unit per module.
pub open spec fn spec_canvas_units(n: u32, final_size: u32) -> int {
    let used = spec_grid_length(n) * spec_module_size(n, final_size);
    if 4 * final_size >= used {
        4 * final_size as int
    } else {
        used
    }
}

/// Grid offset: the quiet zone plus half of the centering remainder left
/// when the quantized grid does not fill the canvas exactly.
pub open spec fn spec_qr_offset(n: u32, final_size: u32) -> int {
    let used = spec_grid_length(n) * spec_module_size(n, final_size);
    QUIET_ZONE * spec_module_size(n, final_size) + (spec_canvas_units(n, final_size) - used) / 2
}

/// The layout derived for `n` modules and a requested raster side of
/// `final_size` pixels, as a value.
pub open spec fn spec_layout_of(n: u32, final_size: u32) -> Layout {
    Layout {
        num_modules: n,
        module_size: spec_module_size(n, final_size) as u32,
        qr_offset: spec_qr_offset(n, final_size) as u32,
        canvas_units: spec_canvas_units(n, final_size) as u32,
    }
}

impl Layout {
    /// Well-formedness: bounded sizes, and the grid (quiet zone included)
    /// fits inside the canvas.
    pub open spec fn wf(self) -> bool {
        &&& self.num_modules <= MAX_MODULES
        &&& 1 <= self.module_size <= 65536
        &&& self.canvas_units <= 65536
        &&& self.qr_offset + (self.num_modules + QUIET_ZONE) * self.module_size
            <= self.canvas_units
    }

    /// Derive the layout for a matrix of `num_modules` modules per side and
    /// a requested raster export of `final_size` pixels per side. The
    /// working canvas is 4x the requested size, for a later high-quality
    /// downscale.
    pub fn new(num_modules: u32, final_size: u32) -> (lay: Layout)
        requires
            num_modules <= MAX_MODULES,
            final_size <= MAX_FINAL_SIZE,
        ensures
            lay.wf(),
            lay.num_modules == num_modules,
            lay.module_size == spec_module_size(num_modules, final_size),
            lay.canvas_units == spec_canvas_units(num_modules, final_size),
            lay.qr_offset == spec_qr_offset(num_modules, final_size),
            lay == spec_layout_of(num_modules, final_size),
    {
        let working: u32 = 4 * final_size;
        let grid: u32 = num_modules + 2 * QUIET_ZONE;
        let q: u32 = working / grid;
        let module_size: u32 = if q >= 1 {
            q
        } else {
            1
        };
        proof {
            lemma_fundamental_div_mod(working as int, grid as int);
            assert(grid * (working as int / grid as int) <= working);
        }
        let used: u32 = grid * module_size;
        let canvas_units: u32 = if working >= used {
            working
        } else {
            used
        };
        let qr_offset: u32 = QUIET_ZONE * module_size + (canvas_units - used) / 2;
        proof {
            let n = num_modules as int;
            let ms = module_size as int;
            assert((n + QUIET_ZONE) * ms + QUIET_ZONE * ms == (n + 2 * QUIET_ZONE) * ms)
                by (nonlinear_arith);
            assert((canvas_units - used) / 2 <= canvas_units - used) by (nonlinear_arith)
                requires
                    used <= canvas_units,
            ;
        }
        Layout { num_modules, module_size, qr_offset, canvas_units }
    }
}

/// Side length, in modules, of the central region reserved for the
/// overlay: a third of the symbol, rounded up to the nearest odd value.
pub open spec fn spec_central_modules(n: u32) -> int {
    if (n / 3) % 2 == 0 {
        n / 3 + 1
    } else {
        n as int / 3
    }
}

/// Offset of the central reserved region from the grid's top-left corner,
/// in canvas units on both axes.
pub open spec fn spec_region_offset_units(lay: Layout) -> int {
    (lay.num_modules - spec_central_modules(lay.num_modules)) * lay.module_size / 2
}

/// Side length of the central reserved region, in canvas units.
pub open spec fn spec_region_size_units(lay: Layout) -> int {
    spec_central_modules(lay.num_modules) * lay.module_size
}

/// Compute the reserved central region's side length in modules.
pub fn central_modules(num_modules: u32) -> (c: u32)
    requires
        1 <= num_modules,
    ensures
        c == spec_central_modules(num_modules),
        c % 2 == 1,
        c <= num_modules / 3 + 1,
        1 <= c <= num_modules,
{
    let third: u32 = num_modules / 3;
    let c: u32 = if third % 2 == 0 {
        third + 1
    } else {
        third
    };
    proof {
        lemma_fundamental_div_mod(num_modules as int, 3);
    }
    c
}

/// Width after aspect-fitting a `width x height` image into a square of
/// side `target`: the longer side maps onto `target`, the shorter is
/// scaled by the same factor, rounded down.
pub open spec fn spec_fit_width(width: u32, height: u32, target: u32) -> int {
    if height > width {
        target * width / height as int
    } else {
        target as int
    }
}

/// Height after aspect-fitting, see [`spec_fit_width`].
pub open spec fn spec_fit_height(width: u32, height: u32, target: u32) -> int {
    if height > width {
        target as int
    } else {
        target * height / width as int
    }
}

/// Aspect-fit scaling: map the longer side of a `width x height` image
/// onto `target`, scaling the shorter side by the same factor.
pub fn aspect_fit(width: u32, height: u32, target: u32) -> (dims: (u32, u32))
    requires
        1 <= width,
        1 <= height,
    ensures
        dims.0 == spec_fit_width(width, height, target),
        dims.1 == spec_fit_height(width, height, target),
        dims.0 <= target,
        dims.1 <= target,
        dims.0 == target || dims.1 == target,
{
    if height > width {
        proof {
            assert(target * width <= target * height && target * width <= u32::MAX as int
                * u32::MAX as int && target * height == height * target) by (nonlinear_arith)
                requires
                    0 <= target <= u32::MAX,
                    0 <= width <= u32::MAX,
                    width <= height,
            ;
            lemma_div_is_ordered(target as int * width as int, target as int * height as int,
                height as int);
            lemma_div_multiples_vanish(target as int, height as int);
        }
        let sw: u64 = (target as u64) * (width as u64) / (height as u64);
        (sw as u32, target)
    } else {
        proof {
            assert(target * height <= target * width && target * height <= u32::MAX as int
                * u32::MAX as int && target * width == width * target) by (nonlinear_arith)
                requires
                    0 <= target <= u32::MAX,
                    0 <= height <= u32::MAX,
                    height <= width,
            ;
            lemma_div_is_ordered(target as int * height as int, target as int * width as int,
                width as int);
            lemma_div_multiples_vanish(target as int, width as int);
        }
        let sh: u64 = (target as u64) * (height as u64) / (width as u64);
        (target, sh as u32)
    }
}

} // verus!
