use vstd::prelude::*;
use crate::color::UNIT;

verus! {

/// Representative frequency (Hz, truncated) of bin `i` of an `n`-point
/// transform of a block sampled at `rate` Hz.
pub open spec fn bin_freq(i: int, rate: int, n: int) -> int {
    i * rate / n
}

/// Sum of the magnitudes among the first `k` bins whose representative
/// frequency lies in `[lo, hi)`.
pub open spec fn band_sum(mags: Seq<u64>, rate: int, lo: int, hi: int, k: int) -> int
    decreases k,
{
    if k <= 0 {
        0
    } else {
        let f = bin_freq(k - 1, rate, mags.len() as int);
        band_sum(mags, rate, lo, hi, k - 1) + if lo <= f < hi {
            mags[k - 1] as int
        } else {
            0
        }
    }
}

/// Energy of the band `[lo, hi)` over all bins, saturated at `u64::MAX`.
pub open spec fn band_energy(mags: Seq<u64>, rate: int, lo: int, hi: int) -> int {
    let s = band_sum(mags, rate, lo, hi, mags.len() as int);
    if s > u64::MAX {
        u64::MAX as int
    } else {
        s
    }
}

/// A saturated fixed-point product `x * s / UNIT`.
pub open spec fn scaled(x: int, s: int) -> int {
    let p = x * s / UNIT as int;
    if p > u64::MAX {
        u64::MAX as int
    } else {
        p
    }
}

proof fn lemma_band_sum_bounds(mags: Seq<u64>, rate: int, lo: int, hi: int, k: int)
    requires
        0 <= k <= mags.len(),
    ensures
        0 <= band_sum(mags, rate, lo, hi, k) <= k * u64::MAX,
    decreases k,
{
    if k > 0 {
        lemma_band_sum_bounds(mags, rate, lo, hi, k - 1);
        assert((k - 1) * u64::MAX + u64::MAX == k * u64::MAX) by (nonlinear_arith);
    }
}

/// All-zero magnitudes give a zero band.
pub proof fn lemma_band_sum_zero(mags: Seq<u64>, rate: int, lo: int, hi: int, k: int)
    requires
        0 <= k <= mags.len(),
        forall|i: int| 0 <= i < mags.len() ==> mags[i] == 0,
    ensures
        band_sum(mags, rate, lo, hi, k) == 0,
    decreases k,
{
    if k > 0 {
        lemma_band_sum_zero(mags, rate, lo, hi, k - 1);
    }
}

/// Sums the magnitudes of the bins whose frequency lies in `[lo, hi)`.
pub fn band_energy_of(mags: &Vec<u64>, rate: u32, lo: u64, hi: u64) -> (r: u64)
    ensures
        r as int == band_energy(mags@, rate as int, lo as int, hi as int),
{
    let n = mags.len();
    let mut acc: u128 = 0;
    let mut i: usize = 0;
    while i < n
        invariant
            n == mags@.len(),
            i <= n,
            acc as int == band_sum(mags@, rate as int, lo as int, hi as int, i as int),
        decreases n - i,
    {
        proof {
            lemma_band_sum_bounds(mags@, rate as int, lo as int, hi as int, i as int);
            assert(i as int * u64::MAX <= usize::MAX as int * u64::MAX) by (nonlinear_arith)
                requires i <= usize::MAX;
        }
        proof {
            assert(i as int * rate as int / n as int <= rate as int) by (nonlinear_arith)
                requires i < n, n > 0, rate >= 0;
            assert(0 <= i as int * rate as int <= u128::MAX) by (nonlinear_arith)
                requires i <= u64::MAX, rate <= u32::MAX;
        }
        let f: u64 = ((i as u128) * (rate as u128) / (n as u128)) as u64;
        if lo <= f && f < hi {
            acc = acc + mags[i] as u128;
        }
        i = i + 1;
    }
    if acc > u64::MAX as u128 {
        u64::MAX
    } else {
        acc as u64
    }
}

/// Saturated fixed-point product of an energy and a scale factor.
pub fn scale_energy(x: u64, s: u64) -> (r: u64)
    ensures
        r as int == scaled(x as int, s as int),
{
    assert(0 <= x as int * s as int <= u128::MAX) by (nonlinear_arith)
        requires x <= u64::MAX, s <= u64::MAX;
    let p: u128 = (x as u128) * (s as u128) / (UNIT as u128);
    if p > u64::MAX as u128 {
        u64::MAX
    } else {
        p as u64
    }
}

} // verus!
