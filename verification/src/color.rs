//! Fixed-point RGB color: three 8-bit channels with saturating arithmetic.
//!
//! Channel arithmetic always clamps back into [0, 255], so every operation is
//! total.  Blend factors and intensities are fixed-point scalars (`FX_ONE` is
//! one).

use vstd::prelude::*;
use crate::fixed::{clamp_s, tdiv_s, FX_ONE};

verus! {

#[derive(Clone, Copy, PartialEq, Eq, Structural, Debug)]
pub struct Color {
    pub r: u8,
    pub g: u8,
    pub b: u8,
}

/// One channel of a linear interpolation from `a` toward `b` by the
/// fixed-point factor `t`, clamped back into the channel range.
pub open spec fn lerp_chan_s(a: int, b: int, t: int) -> int {
    clamp_s(a + tdiv_s((b - a) * t, FX_ONE as int), 0, 255)
}

/// One channel scaled by a fixed-point intensity, clamped into the channel
/// range (a negative intensity darkens to zero).
pub open spec fn scale_chan_s(c: int, i: int) -> int {
    clamp_s(tdiv_s(c * i, FX_ONE as int), 0, 255)
}

pub open spec fn lerp_s(a: Color, b: Color, t: int) -> Color {
    Color {
        r: lerp_chan_s(a.r as int, b.r as int, t) as u8,
        g: lerp_chan_s(a.g as int, b.g as int, t) as u8,
        b: lerp_chan_s(a.b as int, b.b as int, t) as u8,
    }
}

pub open spec fn scale_s(c: Color, i: int) -> Color {
    Color {
        r: scale_chan_s(c.r as int, i) as u8,
        g: scale_chan_s(c.g as int, i) as u8,
        b: scale_chan_s(c.b as int, i) as u8,
    }
}

/// The packed form stored in the framebuffer: 0xRRGGBB.
pub open spec fn hex_s(c: Color) -> int {
    (c.r as int) * 65536 + (c.g as int) * 256 + (c.b as int)
}

fn lerp_chan(a: u8, b: u8, t: i64) -> (r: u8)
    ensures
        r == lerp_chan_s(a as int, b as int, t as int),
{
    proof {
        crate::fixed::lemma_mul_i64_range(b as int - a as int, t as int);
    }
    let d: i128 = (b as i128 - a as i128) * (t as i128);
    let step: i128 = crate::fixed::tdiv_i128(d, FX_ONE as i128);
    let v: i128 = a as i128 + step;
    if v < 0 {
        0
    } else if v > 255 {
        255
    } else {
        v as u8
    }
}

fn scale_chan(c: u8, i: i64) -> (r: u8)
    ensures
        r == scale_chan_s(c as int, i as int),
{
    proof {
        crate::fixed::lemma_mul_i64_range(c as int, i as int);
    }
    let d: i128 = (c as i128) * (i as i128);
    let v: i128 = crate::fixed::tdiv_i128(d, FX_ONE as i128);
    if v < 0 {
        0
    } else if v > 255 {
        255
    } else {
        v as u8
    }
}

impl Color {
    pub fn new(r: u8, g: u8, b: u8) -> (c: Color)
        ensures
            c == (Color { r, g, b }),
    {
        Color { r, g, b }
    }

    /// Linear interpolation from `self` toward `other` by the fixed-point
    /// factor `t`: exactly `self` at t = 0 and exactly `other` at t = FX_ONE.
    pub fn lerp(&self, other: &Color, t: i64) -> (c: Color)
        ensures
            c == lerp_s(*self, *other, t as int),
    {
        Color {
            r: lerp_chan(self.r, other.r, t),
            g: lerp_chan(self.g, other.g, t),
            b: lerp_chan(self.b, other.b, t),
        }
    }

    /// Scale every channel by a fixed-point intensity.
    pub fn scale(&self, intensity: i64) -> (c: Color)
        ensures
            c == scale_s(*self, intensity as int),
    {
        Color {
            r: scale_chan(self.r, intensity),
            g: scale_chan(self.g, intensity),
            b: scale_chan(self.b, intensity),
        }
    }

    /// Pack the channels into one 0xRRGGBB integer for framebuffer storage.
    pub fn to_hex(&self) -> (h: u32)
        ensures
            h == hex_s(*self),
    {
        (self.r as u32) * 65536 + (self.g as u32) * 256 + (self.b as u32)
    }
}

/// Interpolation endpoints are exact: blending by zero returns the first
/// color unchanged, and blending by one returns the second.
pub proof fn lemma_lerp_endpoints(a: Color, b: Color)
    ensures
        lerp_s(a, b, 0) == a,
        lerp_s(a, b, FX_ONE as int) == b,
{
    assert(lerp_chan_s(a.r as int, b.r as int, 0) == a.r as int);
    assert(lerp_chan_s(a.g as int, b.g as int, 0) == a.g as int);
    assert(lerp_chan_s(a.b as int, b.b as int, 0) == a.b as int);
    lemma_lerp_chan_one(a.r as int, b.r as int);
    lemma_lerp_chan_one(a.g as int, b.g as int);
    lemma_lerp_chan_one(a.b as int, b.b as int);
}

proof fn lemma_lerp_chan_one(a: int, b: int)
    requires
        0 <= a <= 255,
        0 <= b <= 255,
    ensures
        lerp_chan_s(a, b, FX_ONE as int) == b,
{
    let d = b - a;
    assert(tdiv_s(d * FX_ONE, FX_ONE as int) == d) by {
        if d >= 0 {
            assert(d * FX_ONE / (FX_ONE as int) == d) by (nonlinear_arith)
                requires
                    d >= 0,
                    FX_ONE == 65536,
            ;
        } else {
            assert((-(d * FX_ONE)) == (-d) * FX_ONE) by (nonlinear_arith);
            assert((-d) * FX_ONE / (FX_ONE as int) == -d) by (nonlinear_arith)
                requires
                    d < 0,
                    FX_ONE == 65536,
            ;
        }
    }
}

} // verus!
