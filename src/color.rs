use vstd::prelude::*;

verus! {

/// Fixed-point scale: the integer `UNIT` stands for 1.0.
pub const UNIT: u64 = 1_000_000;

/// A perceptual color: lightness, chroma and hue, each in millionths
/// (hue in millionths of a degree).
#[derive(Clone, Copy, Debug, PartialEq, Eq, Structural)]
pub struct Color {
    pub l: u64,
    pub c: u64,
    pub h: u64,
}

/// `x` clamped into `[lo, hi]`.
pub open spec fn clamp(x: int, lo: int, hi: int) -> int {
    if x < lo {
        lo
    } else if x > hi {
        hi
    } else {
        x
    }
}

impl Color {
    /// The color as a triple of mathematical integers.
    pub open spec fn lch(self) -> (int, int, int) {
        (self.l as int, self.c as int, self.h as int)
    }

    /// The black color `(0, 0, 0)`.
    pub fn black() -> (r: Color)
        ensures
            r.lch() == (0int, 0int, 0int),
    {
        Color { l: 0, c: 0, h: 0 }
    }

    pub fn new(l: u64, c: u64, h: u64) -> (r: Color)
        ensures
            r.lch() == (l as int, c as int, h as int),
    {
        Color { l, c, h }
    }
}

/// `clamp` on machine integers.
pub fn clamp_u64(x: u64, lo: u64, hi: u64) -> (r: u64)
    requires
        lo <= hi,
    ensures
        r as int == clamp(x as int, lo as int, hi as int),
{
    if x < lo {
        lo
    } else if x > hi {
        hi
    } else {
        x
    }
}

} // verus!
