use vstd::prelude::*;
use crate::bands::{lemma_band_sum_zero, scaled};
use crate::color::{Color, UNIT};
use crate::colorizer::{frequencies_to_color, mapped_lch};
use crate::colors::Colors;
use crate::shared::{AppConfig, Mode};
use crate::spectrum::seven_bands;
use crate::splitter::{split_into_frequencies, three_bands};
use crate::bands::scale_energy;

verus! {

/// A typed command from the command processor.
#[derive(Clone, Copy, Debug)]
pub enum Command {
    SetMode(Mode),
    SetColor(Color),
    /// Opacity in millionths; values above one are taken as one.
    SetOpacity(u64),
    /// Band-energy scale in millionths.
    SetScale(u64),
}

/// Whether an audio block arriving at `now` is analysed and committed: only
/// in reactive mode, and only once `interval` ms have passed since `last`.
pub open spec fn commit_due(mode: Mode, last: int, now: int, interval: int) -> bool {
    mode == Mode::Reactive && now - last >= interval
}

/// The color that an audio block with bin magnitudes `mags` at `rate` Hz
/// maps to, band energies scaled by `scale` first.
pub open spec fn audio_lch(mags: Seq<u64>, rate: int, scale: int) -> (int, int, int) {
    let (low, mid, high) = three_bands(mags, rate);
    mapped_lch(scaled(low, scale), scaled(mid, scale), scaled(high, scale))
}

/// Silence: when every transform bin has zero magnitude, all seven and all
/// three bands are zero, and at any scale the mapped color is `(0, 0, 0)`.
pub proof fn lemma_silence_is_black(mags: Seq<u64>, rate: int, scale: int)
    requires
        forall|i: int| 0 <= i < mags.len() ==> mags[i] == 0,
    ensures
        three_bands(mags, rate) == (0int, 0int, 0int),
        seven_bands(mags, rate).spec_is_zero(),
        audio_lch(mags, rate, scale) == (0int, 0int, 0int),
{
    let n = mags.len() as int;
    lemma_band_sum_zero(mags, rate, 0, 300, n);
    lemma_band_sum_zero(mags, rate, 300, 2000, n);
    lemma_band_sum_zero(mags, rate, 2000, u64::MAX as int, n);
    lemma_band_sum_zero(mags, rate, 20, 60, n);
    lemma_band_sum_zero(mags, rate, 60, 250, n);
    lemma_band_sum_zero(mags, rate, 250, 500, n);
    lemma_band_sum_zero(mags, rate, 500, 2000, n);
    lemma_band_sum_zero(mags, rate, 2000, 4000, n);
    lemma_band_sum_zero(mags, rate, 4000, 6000, n);
    lemma_band_sum_zero(mags, rate, 6000, 20000, n);
    assert(scaled(0, scale) == 0);
}

/// What the engine is handed: commands from the user, or an audio block as
/// transform-bin magnitudes (millionths) with its sample rate.
#[derive(Clone, Debug)]
pub enum Event {
    Commands(Vec<Command>),
    Audio(Vec<u64>, u32),
}

/// The color state together with the settings that govern it.
#[derive(Clone, Copy, Debug)]
pub struct Engine {
    pub colors: Colors,
    pub config: AppConfig,
}

impl Engine {
    pub open spec fn wf(self) -> bool {
        self.config.wf()
    }

    /// The engine after applying `command` at `now`. A color is committed
    /// at once, whatever the mode and however little time has passed.
    pub open spec fn applied(self, command: Command, now: u64) -> Engine {
        match command {
            Command::SetMode(m) => Engine { config: AppConfig { mode: m, ..self.config }, ..self },
            Command::SetColor(c) => Engine { colors: self.colors.committed(c, now), ..self },
            Command::SetOpacity(o) => Engine {
                config: AppConfig { opacity: if o > UNIT { UNIT } else { o }, ..self.config },
                ..self
            },
            Command::SetScale(s) => Engine { config: AppConfig { scale: s, ..self.config }, ..self },
        }
    }

    /// The engine after applying `commands` in order at `now`.
    pub open spec fn applied_all(self, commands: Seq<Command>, now: u64) -> Engine
        decreases commands.len(),
    {
        if commands.len() == 0 {
            self
        } else {
            self.applied_all(commands.drop_last(), now).applied(commands.last(), now)
        }
    }

    /// A black color state under `config`.
    pub fn new(config: AppConfig) -> (r: Engine)
        requires
            config.wf(),
        ensures
            r.wf(),
            r.config == config,
            r.colors.previous.lch() == (0int, 0int, 0int),
            r.colors.current.lch() == (0int, 0int, 0int),
            r.colors.last_commit == 0,
    {
        Engine { colors: Colors::new(), config }
    }

    /// Whether an audio block arriving at `now` would be committed.
    pub fn gate_open(&self, now: u64) -> (r: bool)
        requires
            self.colors.last_commit <= now,
        ensures
            r == commit_due(
                self.config.mode,
                self.colors.last_commit as int,
                now as int,
                self.config.interval as int,
            ),
    {
        self.config.mode == Mode::Reactive && now - self.colors.last_commit >= self.config.interval
    }

    /// Handles an audio block given as transform-bin magnitudes: when the
    /// gate is open, maps its scaled band energies to a color and commits it
    /// at `now`; otherwise leaves everything as it was.
    pub fn on_audio(&mut self, magnitudes: &Vec<u64>, sample_rate: u32, now: u64) -> (committed: bool)
        requires
            old(self).colors.last_commit <= now,
        ensures
            committed == commit_due(
                old(self).config.mode,
                old(self).colors.last_commit as int,
                now as int,
                old(self).config.interval as int,
            ),
            final(self).config == old(self).config,
            committed ==> final(self).colors.previous == old(self).colors.current,
            committed ==> final(self).colors.last_commit == now,
            committed ==> final(self).colors.current.lch() == audio_lch(
                magnitudes@,
                sample_rate as int,
                old(self).config.scale as int,
            ),
            !committed ==> final(self).colors == old(self).colors,
    {
        if !self.gate_open(now) {
            return false;
        }
        let (low, mid, high) = split_into_frequencies(magnitudes, sample_rate);
        let s = self.config.scale;
        let color = frequencies_to_color(
            scale_energy(low, s),
            scale_energy(mid, s),
            scale_energy(high, s),
        );
        self.colors.update_current(color, now);
        true
    }

    /// Applies one command at `now`.
    pub fn apply(&mut self, command: Command, now: u64)
        requires
            old(self).wf(),
            old(self).colors.last_commit <= now,
        ensures
            final(self).wf(),
            *final(self) == old(self).applied(command, now),
    {
        match command {
            Command::SetMode(m) => {
                self.config.mode = m;
            },
            Command::SetColor(c) => {
                self.colors.update_current(c, now);
            },
            Command::SetOpacity(o) => {
                self.config.opacity = if o > UNIT { UNIT } else { o };
            },
            Command::SetScale(s) => {
                self.config.scale = s;
            },
        }
    }

    /// Applies a batch of commands in order, or handles an audio block as
    /// `on_audio` does; says whether an audio block was committed.
    pub fn handle(&mut self, event: &Event, now: u64) -> (committed: bool)
        requires
            old(self).wf(),
            old(self).colors.last_commit <= now,
        ensures
            final(self).wf(),
            match event {
                Event::Commands(cs) => !committed && *final(self) == old(self).applied_all(cs@, now),
                Event::Audio(mags, rate) => committed == commit_due(
                    old(self).config.mode,
                    old(self).colors.last_commit as int,
                    now as int,
                    old(self).config.interval as int,
                ) && final(self).config == old(self).config && (committed
                    ==> final(self).colors.previous == old(self).colors.current
                    && final(self).colors.last_commit == now && final(self).colors.current.lch()
                    == audio_lch(mags@, *rate as int, old(self).config.scale as int)) && (!committed
                    ==> final(self).colors == old(self).colors),
            },
    {
        match event {
            Event::Commands(cs) => {
                let mut i: usize = 0;
                while i < cs.len()
                    invariant
                        i <= cs@.len(),
                        self.wf(),
                        self.colors.last_commit <= now,
                        *self == old(self).applied_all(cs@.subrange(0, i as int), now),
                    decreases cs@.len() - i,
                {
                    self.apply(cs[i], now);
                    assert(cs@.subrange(0, i + 1).drop_last() =~= cs@.subrange(0, i as int));
                    i = i + 1;
                }
                assert(cs@.subrange(0, cs@.len() as int) =~= cs@);
                false
            },
            Event::Audio(mags, rate) => self.on_audio(mags, *rate, now),
        }
    }
}

} // verus!