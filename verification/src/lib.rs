//! Rendering of QR module matrices into decorated images.
//!
//! A square boolean module matrix (produced by an external QR encoder) is
//! turned into a vector scene holding the quiet zone, the three finder
//! patterns and the data modules, and that scene is exported as an SVG
//! document and rasterized to a square pixel buffer, into which an
//! aspect-fitted overlay logo is composited at the centre.

pub mod color;
pub mod engine;
pub mod laws;
pub mod layout;
pub mod pixels;
pub mod overlay;
pub mod raster;
pub mod render;
pub mod scene;
pub mod svg_out;
