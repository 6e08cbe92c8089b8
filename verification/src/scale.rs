//! The one floating-point operation of the core: scaling an ambient color's
//! alpha channel by the ambient brightness. The product of two
//! single-precision values is computed by an outside soft-float library on
//! the bit patterns themselves, and is named rather than restated here.
use vstd::prelude::*;
use crate::color::Rgba;
use rustc_apfloat::Float;

verus! {

/// The bit pattern of the IEEE-754 single-precision product, rounded to
/// nearest with ties to even, of the two single-precision values whose bit
/// patterns are given. A function of its arguments alone.
pub uninterp spec fn mul_bits(a: u32, b: u32) -> u32;

/// Relies on rustc_apfloat's `IeeeFloat::mul_r` in the `Single` semantics:
/// the IEEE-754 single-precision product of the two values, rounded to
/// nearest with ties to even, depending on the two bit patterns alone.
#[verifier::external_body]
fn mul_channel(a: u32, b: u32) -> (r: u32)
    ensures
        r == mul_bits(a, b),
{
    let x = rustc_apfloat::ieee::Single::from_bits(a as u128);
    let y = rustc_apfloat::ieee::Single::from_bits(b as u128);
    let p = x.mul_r(y, rustc_apfloat::Round::NearestTiesToEven).value;
    p.to_bits() as u32
}

/// The ambient color as the fuller shading model encodes it: the color with
/// its alpha channel multiplied by the brightness scalar, so that the shader
/// reads color and intensity from one four-component vector.
pub open spec fn scaled_ambient(color: Rgba, brightness: u32) -> Rgba {
    Rgba { alpha: mul_bits(color.alpha, brightness), ..color }
}

/// Premultiplies the ambient brightness into the color's alpha channel.
pub fn scale_ambient_color(color: Rgba, brightness: u32) -> (r: Rgba)
    ensures
        r == scaled_ambient(color, brightness),
{
    Rgba { alpha: mul_channel(color.alpha, brightness), ..color }
}

} // verus!
