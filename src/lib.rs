//! Glyph outline extraction and coordinate normalisation.
//!
//! The font engine reports a glyph as a stream of path events in raw font units
//! (Y axis pointing up). This library records those events, mirrors and crops
//! them into a top-down space whose origin is the glyph's top-left corner,
//! scales them exactly by an integer font size, and caches the result per
//! character.
//!
//! All coordinates are integers. A render produced at font size `k` for a font
//! with `units_per_em` units holds coordinates in units of `1 / units_per_em`
//! pixel: a host divides by `units_per_em` to obtain pixels.

mod geometry;
pub mod face;
pub mod manager;
mod outline;
pub mod render;
pub mod transform;

pub use geometry::{BBox, Point, Rect};
pub use outline::{DrawInstruction, DrawInstructionTag, InstructionOutlineBuilder};
pub use render::{FontMetrics, OutlineRender};
pub use manager::{resolve_miss, FontError, FontManager, Lookup};
