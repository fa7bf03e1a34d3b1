//! Audio-reactive color engine: spectral band aggregation, perceptual color
//! mapping, a throttled and interpolated color state, and the encoders used
//! by the UDP, TCP and BLE transports.
//!
//! Colors, energies, opacity and scale are fixed-point integers in which one
//! unit is a millionth (see [`color::UNIT`]).
//!
//! - [`bands`], [`splitter`], [`spectrum`]: transform-bin magnitudes summed
//!   into 3 or 7 frequency bands.
//! - [`color`], [`colorizer`]: the Oklch color type and the band-to-color map.
//! - [`colors`]: the committed color state and its interpolation over time.
//! - [`shared`], [`engine`]: settings, commands, and the commit gate.
//! - [`input`]: the grammar of typed user commands.
//! - [`dispatch`], [`commands`]: output channels and transport payloads.
//! - [`supervisor`], [`devices`]: the capture-stream lifecycle and device choice.
//! - [`config`], [`timer`]: startup settings and a monotonic timer.

pub mod bands;
pub mod color;
pub mod colorizer;
pub mod colors;
pub mod commands;
pub mod config;
pub mod devices;
pub mod dispatch;
pub mod engine;
pub mod input;
pub mod shared;
pub mod spectrum;
pub mod splitter;
pub mod supervisor;
pub mod timer;
