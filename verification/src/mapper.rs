//! The stateless mappings: colours to packed light values, pad pressure to
//! note velocity.

use vstd::prelude::*;

verus! {

/// A colour by its red, green and blue channels.
#[derive(Clone, Copy, Debug, PartialEq, Eq, Structural)]
pub struct Rgb {
    pub r: u8,
    pub g: u8,
    pub b: u8,
}

/// The word `0xRRGGBB` as a number.
pub open spec fn packed_rgb(r: u8, g: u8, b: u8) -> int {
    r as int * 0x1_0000 + g as int * 0x100 + b as int
}

/// Full white, the colour of a light that is given a brightness only.
pub const WHITE: u32 = 0xFF_FFFF;

/// Packs three channels into one `0xRRGGBB` word.
pub fn pack_color(r: u8, g: u8, b: u8) -> (packed: u32)
    ensures
        packed == packed_rgb(r, g, b),
        packed <= WHITE,
{
    let packed: u32 = ((r as u32) << 16) | ((g as u32) << 8) | (b as u32);
    assert(((r as u32) << 16) | ((g as u32) << 8) | (b as u32)
        == (r as u32) * 0x1_0000 + (g as u32) * 0x100 + (b as u32)) by (bit_vector);
    packed
}

/// Each channel can be read back out of the packed word, so two colours
/// pack to one word only if they are one colour.
pub proof fn packing_keeps_channels(r: u8, g: u8, b: u8)
    ensures
        packed_rgb(r, g, b) / 0x1_0000 == r,
        packed_rgb(r, g, b) / 0x100 % 0x100 == g,
        packed_rgb(r, g, b) % 0x100 == b,
{
}

/// The low 24 bits of a signed colour argument, read as `0xRRGGBB`.
pub open spec fn light_color(color: i32) -> int {
    color as int % 0x100_0000
}

/// A colour that is a 24-bit word already stays as it is.
pub proof fn light_color_keeps_words(color: i32)
    requires
        0 <= color <= WHITE,
    ensures
        light_color(color) == color,
{
}

/// Reduces a signed colour argument to the 24 bits a light takes.
pub fn mask_color(color: i32) -> (masked: u32)
    ensures
        masked == light_color(color),
        masked <= WHITE,
{
    let masked: u32 = (color as u32) & 0xFF_FFFF;
    assert((color as u32) & 0xFF_FFFF == (color as u32) % 0x100_0000) by (bit_vector);
    assert((color as u32) as int % 0x100_0000 == color as int % 0x100_0000) by {
        assert(color >= 0 ==> (color as u32) == color) by (bit_vector);
        assert(color < 0 ==> (color as u32) == color + 0x1_0000_0000) by (bit_vector);
    }
    masked
}

/// How the pressure on a pad becomes the strength of a note. The
/// parameters are single-precision numbers, held by their IEEE-754 bit
/// patterns.
#[derive(Clone, Copy, Debug, PartialEq, Eq, Structural)]
pub enum PressureShape {
    /// The pressure itself.
    Linear,
    /// The pressure raised to this power.
    Exponential(u32),
    /// This number, whatever the pressure.
    Constant(u32),
}

/// The number that a curve puts in the place of a pressure, as far as it
/// can be given without floating-point arithmetic: a number by its bit
/// pattern, or a power that is left to compute.
#[derive(Clone, Copy, Debug, PartialEq, Eq, Structural)]
pub enum CurveValue {
    Number(u32),
    Power { base: u32, exponent: u32 },
}

/// The exponent 0.4 in single precision.
pub const GAMMA_TWO_FIFTHS: u32 = 0x3ECC_CCCD;

/// What `shape` makes of the pressure with the bit pattern `pressure`.
pub open spec fn curve_value(shape: PressureShape, pressure: u32) -> CurveValue {
    match shape {
        PressureShape::Linear => CurveValue::Number(pressure),
        PressureShape::Exponential(gamma) => CurveValue::Power { base: pressure, exponent: gamma },
        PressureShape::Constant(value) => CurveValue::Number(value),
    }
}

/// Puts a pressure through a curve.
pub fn apply_curve(shape: PressureShape, pressure: u32) -> (value: CurveValue)
    ensures
        value == curve_value(shape, pressure),
{
    match shape {
        PressureShape::Linear => CurveValue::Number(pressure),
        PressureShape::Exponential(gamma) => CurveValue::Power { base: pressure, exponent: gamma },
        PressureShape::Constant(value) => CurveValue::Number(value),
    }
}

/// A constant curve gives its constant, whatever the pressure.
pub proof fn constant_curve_ignores_pressure(value: u32, one: u32, other: u32)
    ensures
        curve_value(PressureShape::Constant(value), one) == CurveValue::Number(value),
        curve_value(PressureShape::Constant(value), one) == curve_value(
            PressureShape::Constant(value),
            other,
        ),
{
}

/// The highest note velocity.
pub const MAX_VELOCITY: u8 = 127;

/// A scaled pressure brought into the range of a velocity.
pub open spec fn clamped_velocity(scaled: int) -> int {
    if scaled < 0 {
        0
    } else if scaled > MAX_VELOCITY {
        MAX_VELOCITY as int
    } else {
        scaled
    }
}

/// The velocity for a pressure that went through its curve, was scaled by
/// 127 and cut to a whole number: the number itself where it is a velocity,
/// else the nearest end of the range.
pub fn clamp_velocity(scaled: i32) -> (velocity: u8)
    ensures
        velocity == clamped_velocity(scaled as int),
        velocity <= MAX_VELOCITY,
{
    if scaled < 0 {
        0
    } else if scaled > 127 {
        MAX_VELOCITY
    } else {
        scaled as u8
    }
}

/// A larger scaled pressure never gives a lower velocity, and none gives a
/// velocity outside the range.
pub proof fn velocity_is_monotone(softer: int, harder: int)
    requires
        softer <= harder,
    ensures
        0 <= clamped_velocity(softer) <= clamped_velocity(harder) <= MAX_VELOCITY,
{
}

} // verus!
