//! Glowing text for OpenGL: the text is rasterised into a coverage bitmap, blurred at
//! a quarter of the window's resolution in two passes, and composited under the sharp
//! text. This crate holds the effect's decisions: the geometry of the bitmap and the
//! bloom targets, the order and wiring of the draw passes, and the bookkeeping of the
//! GPU objects a renderer owns. The caller performs the graphics calls.
use vstd::prelude::*;

pub mod font;
pub mod geometry;
pub mod passes;
pub mod raster;
pub mod renderer;
pub mod shader;
pub mod typewriter;

verus! {
} // verus!
