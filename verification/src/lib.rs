//! Toon-shading material core: material descriptions, the fixed-layout GPU
//! uniform derived from each, and the per-frame synchronization pass that
//! writes scene signals (main camera, sun, ambient light) into every live
//! material description.
//!
//! Two shading-model variants share the pattern: a minimal ambient/sun model
//! whose materials carry a camera position, and a fuller model with toony,
//! shift and equalization factors and extra texture slots. Color channels,
//! vector components and scalar factors are carried as the bit patterns of
//! IEEE-754 single-precision values, so the synchronization rules and the
//! uniform layout can be stated and checked exactly; the host converts to
//! and from its own floating-point types at the boundary.

pub mod color;
pub mod signals;
pub mod scale;
pub mod mtoon;
pub mod toon;
