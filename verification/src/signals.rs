//! Scene signal records handed to the synchronization pass each frame.
//!
//! The host queries its scene once per frame and reports every entity tagged
//! as a main camera or as the sun, plus the global ambient setting if one is
//! present. The pass itself decides what to do when a signal is missing or
//! duplicated, so the records carry all matches, not a pre-resolved choice.
use vstd::prelude::*;
use crate::color::Rgba;
use crate::color::Vec3Bits;

verus! {

/// One entity tagged as the main camera: its world position.
#[derive(Clone, Copy, Debug, PartialEq, Eq, Structural)]
pub struct CameraSignal {
    pub position: Vec3Bits,
}

/// One entity tagged as the sun: the direction its light travels, already
/// resolved by the host as the back vector of the light's world transform,
/// and its color.
#[derive(Clone, Copy, Debug, PartialEq, Eq, Structural)]
pub struct SunSignal {
    pub direction: Vec3Bits,
    pub color: Rgba,
}

/// The global ambient setting: its color and its brightness scalar, the
/// latter as the bit pattern of a single-precision value.
#[derive(Clone, Copy, Debug, PartialEq, Eq, Structural)]
pub struct AmbientSignal {
    pub color: Rgba,
    pub brightness: u32,
}

} // verus!
