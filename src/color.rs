use vstd::prelude::*;

verus! {

/// Fixed-point scale used for texture coordinates and colour channels:
/// the value 1.0 is represented by `UNIT`.
pub const UNIT: i64 = 65536;

/// Half of `UNIT`, the fixed-point representation of 0.5.
pub const HALF: i64 = 32768;

/// An 8-bit-per-channel RGBA colour.
#[derive(Clone, Copy, Debug, PartialEq, Eq, Structural)]
pub struct Rgba {
    pub r: u8,
    pub g: u8,
    pub b: u8,
    pub a: u8,
}

/// Opaque black.
pub open spec fn black() -> Rgba {
    Rgba { r: 0, g: 0, b: 0, a: 255 }
}

/// Opaque white.
pub open spec fn white() -> Rgba {
    Rgba { r: 255, g: 255, b: 255, a: 255 }
}

/// `v` clamped into `[lo, hi]`.
pub open spec fn clamp_int(v: int, lo: int, hi: int) -> int {
    if v < lo {
        lo
    } else if v > hi {
        hi
    } else {
        v
    }
}

/// The 8-bit channel value of a fixed-point intensity: clamped to `[0, 1]`,
/// scaled by 255 and truncated.
pub open spec fn channel_of(v: int) -> int {
    clamp_int(v, 0, UNIT as int) * 255 / (UNIT as int)
}

impl Rgba {
    pub fn new(r: u8, g: u8, b: u8, a: u8) -> (c: Rgba)
        ensures
            c == (Rgba { r, g, b, a }),
    {
        Rgba { r, g, b, a }
    }

    pub fn black() -> (c: Rgba)
        ensures
            c == black(),
    {
        Rgba { r: 0, g: 0, b: 0, a: 255 }
    }

    pub fn white() -> (c: Rgba)
        ensures
            c == white(),
    {
        Rgba { r: 255, g: 255, b: 255, a: 255 }
    }

    /// An opaque colour from three fixed-point intensities; each is clamped
    /// to `[0, 1]` before it is quantised.
    pub fn from_fixed(r: i64, g: i64, b: i64) -> (c: Rgba)
        ensures
            c.r as int == channel_of(r as int),
            c.g as int == channel_of(g as int),
            c.b as int == channel_of(b as int),
            c.a == 255,
    {
        Rgba { r: channel_from_fixed(r), g: channel_from_fixed(g), b: channel_from_fixed(b), a: 255 }
    }
}

/// Quantises one fixed-point intensity to an 8-bit channel.
pub fn channel_from_fixed(v: i64) -> (c: u8)
    ensures
        c as int == channel_of(v as int),
{
    let clamped: i64 = if v < 0 {
        0
    } else if v > UNIT {
        UNIT
    } else {
        v
    };
    assert(0 <= (clamped as int) * 255 / 65536 <= 255) by (nonlinear_arith)
        requires
            0 <= clamped <= 65536,
    ;
    (clamped * 255 / UNIT) as u8
}

} // verus!
