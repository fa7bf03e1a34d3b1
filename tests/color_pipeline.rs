use colormusic::color::{Color, UNIT};
use colormusic::colorizer::frequencies_to_color;
use colormusic::colors::Colors;
use colormusic::engine::{Command, Engine, Event};
use colormusic::shared::{AppConfig, Mode};
use colormusic::spectrum::{get_spectrum, Spectrum};
use colormusic::splitter::split_into_frequencies;

const U: u64 = UNIT;

#[test]
fn mapper_zero_is_black() {
    assert_eq!(frequencies_to_color(0, 0, 0), Color { l: 0, c: 0, h: 0 });
}

#[test]
fn mapper_quiet_mid_branch() {
    // low 500, mid 100, high 600
    let c = frequencies_to_color(500 * U, 100 * U, 600 * U);
    assert_eq!(c, Color { l: 600_000, c: 267_000, h: 282 * U });
}

#[test]
fn mapper_lightness_clamped_low() {
    let c = frequencies_to_color(0, 0, 1 * U);
    assert_eq!(c.l, 50_000);
    assert_eq!(c.h, 102 * U);
    assert_eq!(c.c, 225_500);
}

#[test]
fn mapper_loud_low_quiet_high_branch() {
    // low 1000 > 400, mid 300 > 200, high 100 < 500: hue = 1000 mod 360 = 280
    let c = frequencies_to_color(1000 * U, 300 * U, 100 * U);
    assert_eq!(c, Color { l: 100_000, c: 300_000, h: 280 * U });
}

#[test]
fn mapper_loud_branch_low_half() {
    // low 450: scaled = 450/900*76 = 38 = half -> hue = 20
    let c = frequencies_to_color(450 * U, 300 * U, 800 * U);
    assert_eq!(c, Color { l: 700_000, c: 241_200, h: 20 * U });
}

#[test]
fn mapper_loud_branch_high_half() {
    // low 900: scaled = 76 -> hue = 304 + (76-38)/38*56 = 360
    let c = frequencies_to_color(900 * U, 1000 * U, 800 * U);
    assert_eq!(c.h, 360 * U);
    assert_eq!(c.c, 241_200);
}

#[test]
fn mapper_extreme_energies_do_not_overflow() {
    let c = frequencies_to_color(u64::MAX, u64::MAX, u64::MAX);
    assert_eq!(c.l, 700_000);
    assert_eq!(c.c, 241_200);
    assert!(c.h > 360 * U);
}

#[test]
fn silent_bins_give_zero_bands_and_black() {
    let mags = vec![0u64; 512];
    assert_eq!(split_into_frequencies(&mags, 48000), (0, 0, 0));
    assert!(get_spectrum(&mags, 48000).is_zero());
    let (l, m, h) = split_into_frequencies(&mags, 48000);
    assert_eq!(frequencies_to_color(l, m, h), Color { l: 0, c: 0, h: 0 });
}

#[test]
fn three_band_edges() {
    // 10 bins at 1000 Hz: bin i has frequency 100 * i
    let mags: Vec<u64> = (1..=10).collect();
    // low: bins 0,1,2 (0,100,200 Hz); mid: bins 3..=9 (300..900 Hz); high: none
    assert_eq!(split_into_frequencies(&mags, 1000), (1 + 2 + 3, 4 + 5 + 6 + 7 + 8 + 9 + 10, 0));
    // at 10000 Hz bin i has 1000 * i Hz: low bin 0, mid bin 1, high the rest
    assert_eq!(split_into_frequencies(&mags, 10000), (1, 2, 3 + 4 + 5 + 6 + 7 + 8 + 9 + 10));
}

#[test]
fn three_band_truncated_frequency() {
    // 3 bins at 1000 Hz: frequencies 0, 333, 666 -> low, mid, mid
    assert_eq!(split_into_frequencies(&vec![5, 7, 11], 1000), (5, 18, 0));
}

#[test]
fn empty_block_has_no_energy() {
    assert_eq!(split_into_frequencies(&Vec::new(), 48000), (0, 0, 0));
}

#[test]
fn band_sum_saturates() {
    let mags = vec![u64::MAX, u64::MAX];
    assert_eq!(split_into_frequencies(&mags, 100), (u64::MAX, 0, 0));
}

#[test]
fn seven_bands() {
    // 8 bins at 80000 Hz: 0, 10000, 20000, ... Hz; only 10000 Hz is kept (brilliance)
    let mags: Vec<u64> = vec![1, 2, 3, 4, 5, 6, 7, 8];
    let s = get_spectrum(&mags, 80000);
    assert_eq!(s.brilliance, 2);
    assert_eq!(s.sub_bass + s.bass + s.low_midrange + s.midrange + s.upper_midrange + s.presence, 0);
    // 100 bins at 10000 Hz: bin i is 100 * i Hz
    let mags = vec![1u64; 100];
    let s = get_spectrum(&mags, 10000);
    assert_eq!(s.sub_bass, 0);
    assert_eq!(s.bass, 2); // 100, 200
    assert_eq!(s.low_midrange, 2); // 300, 400
    assert_eq!(s.midrange, 15); // 500..1900
    assert_eq!(s.upper_midrange, 20);
    assert_eq!(s.presence, 20);
    assert_eq!(s.brilliance, 40);
}

#[test]
fn spectrum_scale() {
    let mut s = Spectrum::zero();
    s.bass = 10;
    s.brilliance = u64::MAX;
    s.scale(2 * U + U / 2);
    assert_eq!(s.bass, 25);
    assert_eq!(s.brilliance, u64::MAX);
    assert!(!s.is_zero());
    s.scale(0);
    assert!(s.is_zero());
}

#[test]
fn new_state_is_black() {
    let s = Colors::new();
    assert_eq!(s.previous, Color { l: 0, c: 0, h: 0 });
    assert_eq!(s.current, Color { l: 0, c: 0, h: 0 });
}

#[test]
fn interpolation_endpoints_and_monotone() {
    let mut s = Colors::new();
    s.update_current(Color::new(100, 0, 350 * U), 10);
    s.update_current(Color::new(500, 1000, 10 * U), 1000);
    assert_eq!(s.sample(1000, 200), Color::new(100, 0, 350 * U));
    assert_eq!(s.sample(1200, 200), Color::new(500, 1000, 10 * U));
    assert_eq!(s.sample(5000, 200), Color::new(500, 1000, 10 * U));
    // halfway: no hue wraparound, 350 -> 10 passes through 180
    assert_eq!(s.sample(1100, 200), Color::new(300, 500, 180 * U));
    let mut prev = s.sample(1000, 200);
    for t in 1000..1300 {
        let c = s.sample(t, 200);
        assert!(c.l >= prev.l && c.c >= prev.c && c.h <= prev.h);
        prev = c;
    }
}

#[test]
fn commit_twice_same_color() {
    let mut s = Colors::new();
    let c = Color::new(1, 2, 3);
    s.update_current(Color::new(9, 9, 9), 0);
    s.update_current(c, 5);
    s.update_current(c, 5);
    assert_eq!(s.previous, c);
    assert_eq!(s.current, c);
    assert_eq!(s.last_commit, 5);
}

fn loud_block() -> Vec<u64> {
    // one bin per 100 Hz at 10000 Hz, every bin 50 units
    vec![50 * U; 100]
}

#[test]
fn audio_commit_gated_by_interval() {
    let mut e = Engine::new(AppConfig::with_interval(260));
    assert!(!e.on_audio(&loud_block(), 10000, 100));
    assert_eq!(e.colors.current, Color::new(0, 0, 0));
    assert!(e.on_audio(&loud_block(), 10000, 260));
    assert_eq!(e.colors.last_commit, 260);
    let committed = e.colors.current;
    assert_ne!(committed, Color::new(0, 0, 0));
    assert!(!e.on_audio(&vec![0u64; 100], 10000, 519));
    assert_eq!(e.colors.current, committed);
    assert!(e.on_audio(&vec![0u64; 100], 10000, 520));
    assert_eq!(e.colors.current, Color::new(0, 0, 0));
    assert_eq!(e.colors.previous, committed);
}

#[test]
fn audio_commit_matches_mapper() {
    let mut e = Engine::new(AppConfig::with_interval(0));
    e.apply(Command::SetScale(2 * U), 0);
    let mags = loud_block();
    let (l, m, h) = split_into_frequencies(&mags, 10000);
    let expected = frequencies_to_color(2 * l, 2 * m, 2 * h);
    assert!(e.on_audio(&mags, 10000, 0));
    assert_eq!(e.colors.current, expected);
}

#[test]
fn static_mode_blocks_audio_but_not_set_color() {
    let mut e = Engine::new(AppConfig::default());
    e.apply(Command::SetMode(Mode::Static), 0);
    assert!(!e.on_audio(&loud_block(), 10000, 100_000));
    assert_eq!(e.colors.current, Color::new(0, 0, 0));
    let red = Color::new(628_000, 257_683, 29_233_885);
    e.apply(Command::SetColor(red), 100_001);
    assert_eq!(e.colors.current, red);
    assert_eq!(e.colors.last_commit, 100_001);
    // a color commits even right after another commit
    let blue = Color::new(452_000, 313_136, 264_053_008);
    e.apply(Command::SetColor(blue), 100_001);
    assert_eq!(e.colors.current, blue);
    assert_eq!(e.colors.previous, red);
    e.apply(Command::SetMode(Mode::Reactive), 100_001);
    assert!(!e.gate_open(100_001 + 259));
    assert!(e.gate_open(100_001 + 260));
}

#[test]
fn opacity_and_scale_commands() {
    let mut e = Engine::new(AppConfig::default());
    assert_eq!(e.config.opacity, U);
    e.apply(Command::SetOpacity(U / 5), 0);
    assert_eq!(e.config.opacity, 200_000);
    e.apply(Command::SetOpacity(3 * U), 0);
    assert_eq!(e.config.opacity, U);
    e.apply(Command::SetScale(70 * U + U / 2), 0);
    assert_eq!(e.config.scale, 70_500_000);
    assert_eq!(e.config.mode, Mode::Reactive);
    assert_eq!(e.config.interval, 260);
}

#[test]
fn event_batches_apply_in_order() {
    let mut e = Engine::new(AppConfig::default());
    let a = Color::new(1, 1, 1);
    let b = Color::new(2, 2, 2);
    let batch = Event::Commands(vec![
        Command::SetMode(Mode::Static),
        Command::SetColor(a),
        Command::SetColor(b),
        Command::SetOpacity(U / 2),
    ]);
    assert!(!e.handle(&batch, 7));
    assert_eq!(e.config.mode, Mode::Static);
    assert_eq!(e.colors.previous, a);
    assert_eq!(e.colors.current, b);
    assert_eq!(e.colors.last_commit, 7);
    assert_eq!(e.config.opacity, U / 2);
    // static mode: audio is not committed
    assert!(!e.handle(&Event::Audio(loud_block(), 10000), 1000));
    assert_eq!(e.colors.current, b);
    assert!(!e.handle(&Event::Commands(vec![Command::SetMode(Mode::Reactive)]), 1000));
    assert!(e.handle(&Event::Audio(loud_block(), 10000), 1000));
    assert_eq!(e.colors.previous, b);
}
