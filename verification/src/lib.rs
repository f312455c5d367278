//! Core of an acoustic modem: bytes become audible tones, and tones heard
//! through a microphone become bytes again.
//!
//! This crate holds the verified engine only: the byte-to-tone mapping, the
//! sample-count bookkeeping of the waveform synthesizer, the sliding-window
//! capture logic, the streaming local-extremum tracker, the per-channel
//! hysteresis decoder, and the FIFO queue that decouples capture from
//! analysis.  Magnitudes and thresholds are carried as fixed-point integers
//! (thousandths of the normalized spectral power); the floating-point work
//! (sine evaluation, the Fourier transform) lives with the audio front end,
//! which quantizes its results before handing them to this crate.

pub mod config;
pub mod decoder;
pub mod extremum_finder;
pub mod frame;
pub mod maybe_sine_wave;
pub mod multi_sine_wave;
pub mod queue;
pub mod spectrum;
