//! Plain value types for colors, world-space vectors and texture references.
//!
//! Every channel, component and scalar factor is carried as the bit pattern
//! of an IEEE-754 single-precision value, so that copying and layout rules
//! can be stated exactly while the host keeps its own floating-point types.
use vstd::prelude::*;

verus! {

/// Bit pattern of the single-precision value one.
pub const ONE_BITS: u32 = 0x3f80_0000;

/// Bit pattern of the single-precision value zero.
pub const ZERO_BITS: u32 = 0x0000_0000;

/// Bit pattern of the single-precision value nine tenths, the default of the
/// toony and equalization factors.
pub const NINE_TENTHS_BITS: u32 = 0x3f66_6666;

/// A linear-space RGBA color; each channel holds the bit pattern of a
/// single-precision value.
#[derive(Clone, Copy, Debug, PartialEq, Eq, Structural)]
pub struct Rgba {
    pub red: u32,
    pub green: u32,
    pub blue: u32,
    pub alpha: u32,
}

impl Rgba {
    /// Opaque white: every channel one.
    pub open spec fn white() -> Rgba {
        Rgba { red: ONE_BITS, green: ONE_BITS, blue: ONE_BITS, alpha: ONE_BITS }
    }

    /// Opaque black: zero color channels, alpha one.
    pub open spec fn black() -> Rgba {
        Rgba { red: ZERO_BITS, green: ZERO_BITS, blue: ZERO_BITS, alpha: ONE_BITS }
    }

    /// The all-zero color, transparent black.
    pub open spec fn zero() -> Rgba {
        Rgba { red: ZERO_BITS, green: ZERO_BITS, blue: ZERO_BITS, alpha: ZERO_BITS }
    }

    /// Builds the opaque white color.
    pub fn opaque_white() -> (c: Rgba)
        ensures
            c == Rgba::white(),
    {
        Rgba { red: ONE_BITS, green: ONE_BITS, blue: ONE_BITS, alpha: ONE_BITS }
    }

    /// Builds the opaque black color.
    pub fn opaque_black() -> (c: Rgba)
        ensures
            c == Rgba::black(),
    {
        Rgba { red: ZERO_BITS, green: ZERO_BITS, blue: ZERO_BITS, alpha: ONE_BITS }
    }

    /// Builds the all-zero, transparent black color.
    pub fn transparent_black() -> (c: Rgba)
        ensures
            c == Rgba::zero(),
    {
        Rgba { red: ZERO_BITS, green: ZERO_BITS, blue: ZERO_BITS, alpha: ZERO_BITS }
    }
}

/// A three-component world-space vector; each component holds the bit
/// pattern of a single-precision value.
#[derive(Clone, Copy, Debug, PartialEq, Eq, Structural)]
pub struct Vec3Bits {
    pub x: u32,
    pub y: u32,
    pub z: u32,
}

impl Vec3Bits {
    /// The zero vector.
    pub open spec fn zero() -> Vec3Bits {
        Vec3Bits { x: ZERO_BITS, y: ZERO_BITS, z: ZERO_BITS }
    }

    /// The positive Y unit vector.
    pub open spec fn unit_y() -> Vec3Bits {
        Vec3Bits { x: ZERO_BITS, y: ONE_BITS, z: ZERO_BITS }
    }

    /// Builds the zero vector.
    pub fn zeroed() -> (v: Vec3Bits)
        ensures
            v == Vec3Bits::zero(),
    {
        Vec3Bits { x: ZERO_BITS, y: ZERO_BITS, z: ZERO_BITS }
    }

    /// Builds the positive Y unit vector.
    pub fn up() -> (v: Vec3Bits)
        ensures
            v == Vec3Bits::unit_y(),
    {
        Vec3Bits { x: ZERO_BITS, y: ONE_BITS, z: ZERO_BITS }
    }
}

/// An opaque reference to a texture asset owned by the host's asset table.
/// The core only stores it and tests for its presence.
#[derive(Clone, Copy, Debug, PartialEq, Eq, Structural)]
pub struct TextureHandle {
    pub id: u64,
}

} // verus!
