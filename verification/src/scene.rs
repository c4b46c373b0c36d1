//! The vector canvas: a retained scene of filled primitives, addressed in
//! module-relative coordinates and translated by the grid offset.

use vstd::prelude::*;
use crate::color::Color;

verus! {

/// A filled primitive of the vector scene. Coordinates are absolute
/// canvas units; later shapes paint over earlier ones.
#[derive(Clone, Copy, Debug, PartialEq, Eq, Structural)]
pub enum Shape {
    /// An axis-aligned filled square with top-left corner `(x, y)`.
    Rect { x: u32, y: u32, side: u32, color: Color },
    /// A filled circle inscribed in the square `(x, y, diameter, diameter)`.
    Circle { x: u32, y: u32, diameter: u32, color: Color },
}

/// A drawing surface backed by a retained scene of primitives.
pub struct VectorCanvas {
    /// Side length of the canvas, in units.
    pub units: u32,
    /// Translation applied to all module-relative coordinates, in units.
    pub offset: u32,
    /// The scene, in painting order. The first shape is the background.
    pub shapes: Vec<Shape>,
}

impl VectorCanvas {
    /// The opaque white background covering the whole canvas.
    pub open spec fn spec_background(units: u32) -> Shape {
        Shape::Rect { x: 0u32, y: 0u32, side: units, color: Color::spec_white() }
    }

    /// Create a canvas of `units x units`, filled with opaque white.
    pub fn new(units: u32, offset: u32) -> (c: VectorCanvas)
        ensures
            c.units == units,
            c.offset == offset,
            c.shapes@ == seq![Self::spec_background(units)],
    {
        let mut shapes: Vec<Shape> = Vec::new();
        shapes.push(Shape::Rect { x: 0, y: 0, side: units, color: Color::white() });
        proof {
            assert(shapes@ =~= seq![Self::spec_background(units)]);
        }
        VectorCanvas { units, offset, shapes }
    }

    /// Paint a filled square of side `side` at module-relative `(x, y)`.
    pub fn fill_rect(&mut self, x: u32, y: u32, side: u32, color: Color)
        requires
            old(self).offset + x + side <= old(self).units,
            old(self).offset + y + side <= old(self).units,
        ensures
            final(self).units == old(self).units,
            final(self).offset == old(self).offset,
            final(self).shapes@ == old(self).shapes@.push(
                Shape::Rect {
                    x: (old(self).offset + x) as u32,
                    y: (old(self).offset + y) as u32,
                    side: side,
                    color: color,
                },
            ),
    {
        let sx = self.offset + x;
        let sy = self.offset + y;
        self.shapes.push(Shape::Rect { x: sx, y: sy, side, color });
    }

    /// Paint a filled circle inscribed in the square of side `diameter` at
    /// module-relative `(x, y)`.
    pub fn fill_circle(&mut self, x: u32, y: u32, diameter: u32, color: Color)
        requires
            old(self).offset + x + diameter <= old(self).units,
            old(self).offset + y + diameter <= old(self).units,
        ensures
            final(self).units == old(self).units,
            final(self).offset == old(self).offset,
            final(self).shapes@ == old(self).shapes@.push(
                Shape::Circle {
                    x: (old(self).offset + x) as u32,
                    y: (old(self).offset + y) as u32,
                    diameter: diameter,
                    color: color,
                },
            ),
    {
        let sx = self.offset + x;
        let sy = self.offset + y;
        self.shapes.push(Shape::Circle { x: sx, y: sy, diameter, color });
    }
}

} // verus!
