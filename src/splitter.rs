use vstd::prelude::*;
use crate::bands::{band_energy, band_energy_of};

verus! {

/// Upper edge of the low band and lower edge of the mid band (Hz).
pub const LOW_MID_HZ: u64 = 300;
/// Upper edge of the mid band and lower edge of the high band (Hz).
pub const MID_HIGH_HZ: u64 = 2000;

/// The 3-band energies `(low, mid, high)` of a block whose transform bins
/// have magnitudes `mags` (millionths), sampled at `rate` Hz. No bin's
/// frequency reaches `u64::MAX`, so the high band has no upper edge.
pub open spec fn three_bands(mags: Seq<u64>, rate: int) -> (int, int, int) {
    (
        band_energy(mags, rate, 0, LOW_MID_HZ as int),
        band_energy(mags, rate, LOW_MID_HZ as int, MID_HIGH_HZ as int),
        band_energy(mags, rate, MID_HIGH_HZ as int, u64::MAX as int),
    )
}

/// Aggregates transform-bin magnitudes into low `[0,300)`, mid `[300,2000)`
/// and high `[2000,∞)` Hz band energies.
pub fn split_into_frequencies(magnitudes: &Vec<u64>, sample_rate: u32) -> (r: (u64, u64, u64))
    ensures
        (r.0 as int, r.1 as int, r.2 as int) == three_bands(magnitudes@, sample_rate as int),
{
    let low = band_energy_of(magnitudes, sample_rate, 0, LOW_MID_HZ);
    let mid = band_energy_of(magnitudes, sample_rate, LOW_MID_HZ, MID_HIGH_HZ);
    let high = band_energy_of(magnitudes, sample_rate, MID_HIGH_HZ, u64::MAX);
    (low, mid, high)
}

} // verus!
