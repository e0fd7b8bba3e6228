//! RGBA colors in fixed-point arithmetic.
//!
//! Channels are fixed-point values, logically in `[0, 1]`; the
//! arithmetic here does not clamp (values combine additively and may
//! leave that range), and clamping happens only when a channel is
//! quantized to a byte at write-out.

use vstd::prelude::*;

use crate::fixed::Fx;
use crate::fixed::SCALE;
use crate::fixed::fx_add;
use crate::fixed::fx_mul;
use crate::fixed::fx_sub;

verus! {

/// The mathematical model of a color: four fixed-point channels.
pub ghost struct C4 {
    pub r: int,
    pub g: int,
    pub b: int,
    pub a: int,
}

/// The all-zero (transparent) color.
pub open spec fn c4_zero() -> C4 {
    C4 { r: 0, g: 0, b: 0, a: 0 }
}

/// Channelwise sum.
pub open spec fn c4_add(x: C4, y: C4) -> C4 {
    C4 { r: fx_add(x.r, y.r), g: fx_add(x.g, y.g), b: fx_add(x.b, y.b), a: fx_add(x.a, y.a) }
}

/// Channelwise difference.
pub open spec fn c4_sub(x: C4, y: C4) -> C4 {
    C4 { r: fx_sub(x.r, y.r), g: fx_sub(x.g, y.g), b: fx_sub(x.b, y.b), a: fx_sub(x.a, y.a) }
}

/// Every channel scaled by `s`.
pub open spec fn c4_scale(x: C4, s: int) -> C4 {
    C4 { r: fx_mul(s, x.r), g: fx_mul(s, x.g), b: fx_mul(s, x.b), a: fx_mul(s, x.a) }
}

/// Opaque black.
pub open spec fn c4_black() -> C4 {
    C4 { r: 0, g: 0, b: 0, a: SCALE as int }
}

/// An RGBA color of fixed-point channels.
#[derive(Clone, Copy, Debug, PartialEq, Eq, Structural)]
pub struct Color {
    pub r: Fx,
    pub g: Fx,
    pub b: Fx,
    pub a: Fx,
}

impl View for Color {
    type V = C4;

    open spec fn view(&self) -> C4 {
        C4 { r: self.r@, g: self.g@, b: self.b@, a: self.a@ }
    }
}

impl Color {
    /// Every channel scaled by `s`.
    pub fn scale(self, s: Fx) -> (c: Color)
        ensures
            c@ == c4_scale(self@, s@),
    {
        Color { r: s.mul(self.r), g: s.mul(self.g), b: s.mul(self.b), a: s.mul(self.a) }
    }

    /// Channelwise sum.
    pub fn add(self, other: Color) -> (c: Color)
        ensures
            c@ == c4_add(self@, other@),
    {
        Color {
            r: self.r.add(other.r),
            g: self.g.add(other.g),
            b: self.b.add(other.b),
            a: self.a.add(other.a),
        }
    }

    /// Channelwise sum in place.
    pub fn add_assign(&mut self, other: Color)
        ensures
            final(self)@ == c4_add(old(self)@, other@),
    {
        *self = self.add(other);
    }

    /// Channelwise difference.
    pub fn sub(self, other: Color) -> (c: Color)
        ensures
            c@ == c4_sub(self@, other@),
    {
        Color {
            r: self.r.sub(other.r),
            g: self.g.sub(other.g),
            b: self.b.sub(other.b),
            a: self.a.sub(other.a),
        }
    }

    /// The all-zero (transparent) color.
    pub fn zero() -> (c: Color)
        ensures
            c@ == c4_zero(),
    {
        Color { r: Fx { v: 0 }, g: Fx { v: 0 }, b: Fx { v: 0 }, a: Fx { v: 0 } }
    }

    /// Opaque black.
    pub fn black() -> (c: Color)
        ensures
            c@ == c4_black(),
    {
        Color { r: Fx { v: 0 }, g: Fx { v: 0 }, b: Fx { v: 0 }, a: Fx { v: SCALE } }
    }

    /// Opaque white.
    pub fn white() -> (c: Color)
        ensures
            c@ == (C4 { r: SCALE as int, g: SCALE as int, b: SCALE as int, a: SCALE as int }),
    {
        Color { r: Fx { v: SCALE }, g: Fx { v: SCALE }, b: Fx { v: SCALE }, a: Fx { v: SCALE } }
    }

    /// Opaque red.
    pub fn red() -> (c: Color)
        ensures
            c@ == (C4 { r: SCALE as int, g: 0, b: 0, a: SCALE as int }),
    {
        Color { r: Fx { v: SCALE }, g: Fx { v: 0 }, b: Fx { v: 0 }, a: Fx { v: SCALE } }
    }

    /// Opaque green.
    pub fn green() -> (c: Color)
        ensures
            c@ == (C4 { r: 0, g: SCALE as int, b: 0, a: SCALE as int }),
    {
        Color { r: Fx { v: 0 }, g: Fx { v: SCALE }, b: Fx { v: 0 }, a: Fx { v: SCALE } }
    }

    /// Opaque blue.
    pub fn blue() -> (c: Color)
        ensures
            c@ == (C4 { r: 0, g: 0, b: SCALE as int, a: SCALE as int }),
    {
        Color { r: Fx { v: 0 }, g: Fx { v: 0 }, b: Fx { v: SCALE }, a: Fx { v: SCALE } }
    }

    /// Opaque orange (the palette's 254/255, 165/255 mix).
    pub fn orange() -> (c: Color)
        ensures
            c@ == (C4 { r: 996_078, g: 647_059, b: 0, a: SCALE as int }),
    {
        Color { r: Fx { v: 996_078 }, g: Fx { v: 647_059 }, b: Fx { v: 0 }, a: Fx { v: SCALE } }
    }
}

} // verus!
