use vstd::prelude::*;
use crate::bands::{band_energy, band_energy_of, scale_energy, scaled};

verus! {

/// Energies of the seven perceptual bands, in millionths.
#[derive(Clone, Copy, Debug, PartialEq, Eq, Structural)]
pub struct Spectrum {
    pub sub_bass: u64,
    pub bass: u64,
    pub low_midrange: u64,
    pub midrange: u64,
    pub upper_midrange: u64,
    pub presence: u64,
    pub brilliance: u64,
}

/// The 7-band spectrum of a block whose transform bins have magnitudes
/// `mags`, sampled at `rate` Hz. Frequencies outside `[20, 20000)` Hz count
/// in no band.
pub open spec fn seven_bands(mags: Seq<u64>, rate: int) -> Spectrum {
    Spectrum {
        sub_bass: band_energy(mags, rate, 20, 60) as u64,
        bass: band_energy(mags, rate, 60, 250) as u64,
        low_midrange: band_energy(mags, rate, 250, 500) as u64,
        midrange: band_energy(mags, rate, 500, 2000) as u64,
        upper_midrange: band_energy(mags, rate, 2000, 4000) as u64,
        presence: band_energy(mags, rate, 4000, 6000) as u64,
        brilliance: band_energy(mags, rate, 6000, 20000) as u64,
    }
}

impl Spectrum {
    pub open spec fn spec_is_zero(self) -> bool {
        self.sub_bass == 0 && self.bass == 0 && self.low_midrange == 0 && self.midrange == 0
            && self.upper_midrange == 0 && self.presence == 0 && self.brilliance == 0
    }

    /// Every band energy multiplied by the fixed-point factor `s`, saturated.
    pub open spec fn spec_scaled(self, s: u64) -> Spectrum {
        Spectrum {
            sub_bass: scaled(self.sub_bass as int, s as int) as u64,
            bass: scaled(self.bass as int, s as int) as u64,
            low_midrange: scaled(self.low_midrange as int, s as int) as u64,
            midrange: scaled(self.midrange as int, s as int) as u64,
            upper_midrange: scaled(self.upper_midrange as int, s as int) as u64,
            presence: scaled(self.presence as int, s as int) as u64,
            brilliance: scaled(self.brilliance as int, s as int) as u64,
        }
    }

    /// The spectrum with every band at zero energy.
    pub fn zero() -> (r: Spectrum)
        ensures
            r.spec_is_zero(),
    {
        Spectrum {
            sub_bass: 0,
            bass: 0,
            low_midrange: 0,
            midrange: 0,
            upper_midrange: 0,
            presence: 0,
            brilliance: 0,
        }
    }

    /// Whether every band is silent.
    pub fn is_zero(&self) -> (r: bool)
        ensures
            r == self.spec_is_zero(),
    {
        self.sub_bass == 0 && self.bass == 0 && self.low_midrange == 0 && self.midrange == 0
            && self.upper_midrange == 0 && self.presence == 0 && self.brilliance == 0
    }

    /// Multiplies every band by the fixed-point factor `scale` (millionths).
    pub fn scale(&mut self, scale: u64)
        ensures
            *final(self) == old(self).spec_scaled(scale),
    {
        self.sub_bass = scale_energy(self.sub_bass, scale);
        self.bass = scale_energy(self.bass, scale);
        self.low_midrange = scale_energy(self.low_midrange, scale);
        self.midrange = scale_energy(self.midrange, scale);
        self.upper_midrange = scale_energy(self.upper_midrange, scale);
        self.presence = scale_energy(self.presence, scale);
        self.brilliance = scale_energy(self.brilliance, scale);
    }
}

/// Aggregates transform-bin magnitudes (millionths) into the seven bands.
pub fn get_spectrum(magnitudes: &Vec<u64>, sample_rate: u32) -> (r: Spectrum)
    ensures
        r == seven_bands(magnitudes@, sample_rate as int),
{
    Spectrum {
        sub_bass: band_energy_of(magnitudes, sample_rate, 20, 60),
        bass: band_energy_of(magnitudes, sample_rate, 60, 250),
        low_midrange: band_energy_of(magnitudes, sample_rate, 250, 500),
        midrange: band_energy_of(magnitudes, sample_rate, 500, 2000),
        upper_midrange: band_energy_of(magnitudes, sample_rate, 2000, 4000),
        presence: band_energy_of(magnitudes, sample_rate, 4000, 6000),
        brilliance: band_energy_of(magnitudes, sample_rate, 6000, 20000),
    }
}

} // verus!
