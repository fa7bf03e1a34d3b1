use vstd::prelude::*;
use crate::color::{clamp, clamp_u64, Color, UNIT};

verus! {

/// Lightness bounds.
pub const L_MIN: u64 = 50_000;
pub const L_MAX: u64 = 700_000;
/// Chroma bounds before the hue branch.
pub const C_MIN: u64 = 150_000;
pub const C_MAX: u64 = 300_000;
/// Chroma bounds in the low-energy branch.
pub const C_LOW_MIN: u64 = 225_500;
pub const C_LOW_MAX: u64 = 267_000;
/// Chroma cap in the loud branch.
pub const C_LOUD_MAX: u64 = 241_200;

/// Hue (millionths of a degree) in the loud branch, from the low-band energy.
pub open spec fn loud_hue(low: int) -> int {
    let scaled = low * 76 / 900;
    let half = 38 * UNIT as int;
    if scaled <= half {
        scaled * 20 / 38
    } else {
        304 * UNIT as int + (scaled - half) * 56 / 38
    }
}

/// The color that the band energies `low`, `mid`, `high` (millionths) map to.
pub open spec fn mapped_lch(low: int, mid: int, high: int) -> (int, int, int) {
    let u = UNIT as int;
    if low == 0 && mid == 0 && high == 0 {
        (0, 0, 0)
    } else {
        let l = clamp(high / 1000, L_MIN as int, L_MAX as int);
        let c = clamp(mid / 200, C_MIN as int, C_MAX as int);
        if low <= 400 * u || mid <= 200 * u {
            (l, clamp(c, C_LOW_MIN as int, C_LOW_MAX as int), clamp(low, 102 * u, 282 * u))
        } else if low > 400 * u && high < 500 * u {
            (l, c, low % (360 * u))
        } else {
            (l, if c < C_LOUD_MAX as int { c } else { C_LOUD_MAX as int }, loud_hue(low))
        }
    }
}

proof fn lemma_loud_hue_bounds(low: int)
    requires
        0 <= low <= u64::MAX,
    ensures
        0 <= loud_hue(low) <= u64::MAX,
{
    let scaled = low * 76 / 900;
    assert(0 <= scaled <= low / 11) by (nonlinear_arith)
        requires scaled == low * 76 / 900, 0 <= low;
    let half = 38 * UNIT as int;
    if scaled > half {
        assert(0 <= (scaled - half) * 56 / 38 <= scaled * 2) by (nonlinear_arith)
            requires scaled > half, half > 0;
    } else {
        assert(0 <= scaled * 20 / 38 <= scaled) by (nonlinear_arith)
            requires 0 <= scaled;
    }
}

/// Maps 3-band energies (millionths, already scaled) to a perceptual color.
pub fn frequencies_to_color(low: u64, mid: u64, high: u64) -> (r: Color)
    ensures
        r.lch() == mapped_lch(low as int, mid as int, high as int),
{
    if low == 0 && mid == 0 && high == 0 {
        return Color::black();
    }
    let l = clamp_u64(high / 1000, L_MIN, L_MAX);
    let c = clamp_u64(mid / 200, C_MIN, C_MAX);
    if low <= 400 * UNIT || mid <= 200 * UNIT {
        Color::new(l, clamp_u64(c, C_LOW_MIN, C_LOW_MAX), clamp_u64(low, 102 * UNIT, 282 * UNIT))
    } else if low > 400 * UNIT && high < 500 * UNIT {
        Color::new(l, c, low % (360 * UNIT))
    } else {
        proof {
            lemma_loud_hue_bounds(low as int);
        }
        let scaled: u128 = (low as u128) * 76 / 900;
        let half: u128 = 38 * (UNIT as u128);
        let hue: u128 = if scaled <= half {
            scaled * 20 / 38
        } else {
            304 * (UNIT as u128) + (scaled - half) * 56 / 38
        };
        let capped = if c < C_LOUD_MAX { c } else { C_LOUD_MAX };
        Color::new(l, capped, hue as u64)
    }
}

} // verus!
