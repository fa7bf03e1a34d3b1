use vstd::prelude::*;
use crate::color::UNIT;

verus! {

/// Commit interval (ms) used when none is configured.
pub const DEFAULT_INTERVAL_MS: u64 = 260;

/// Whether the color follows the audio or stays as last set.
#[derive(Clone, Copy, Debug, PartialEq, Eq, Structural)]
pub enum Mode {
    Reactive,
    Static,
}

/// Settings read by every transport and by the audio path.
#[derive(Clone, Copy, Debug)]
pub struct AppConfig {
    pub mode: Mode,
    /// Brightness factor applied to every output channel, in millionths of 1.
    pub opacity: u64,
    /// Factor applied to band energies before color mapping, in millionths.
    pub scale: u64,
    /// Minimum time between audio commits, and the interpolation window (ms).
    pub interval: u64,
}

impl AppConfig {
    /// Opacity is a fraction in `[0, 1]`.
    pub open spec fn wf(self) -> bool {
        self.opacity <= UNIT
    }

    /// Reactive mode, full opacity, unit scale and the given commit interval.
    pub fn with_interval(interval: u64) -> (r: AppConfig)
        ensures
            r.wf(),
            r.mode == Mode::Reactive,
            r.opacity == UNIT,
            r.scale == UNIT,
            r.interval == interval,
    {
        AppConfig { mode: Mode::Reactive, opacity: UNIT, scale: UNIT, interval }
    }
}

impl Default for AppConfig {
    fn default() -> (r: AppConfig)
        ensures
            r.wf(),
            r.mode == Mode::Reactive,
            r.opacity == UNIT,
            r.scale == UNIT,
            r.interval == DEFAULT_INTERVAL_MS,
    {
        AppConfig::with_interval(DEFAULT_INTERVAL_MS)
    }
}

} // verus!
