//! The tone mapper: bytes become scheduled syntheses.
//!
//! A symbol is transmitted as one tone phase at `base + scale * symbol`
//! hertz followed by one mandatory silence phase; the silence gives the
//! decoder the falling edge it relies on for self-clocking.

use vstd::prelude::*;

use crate::config::{Config, MAX_SYMBOL};

verus! {

/// Sample rate of the transmit path, in samples per second.
pub const TALK_SAMPLE_RATE: u32 = 48000;

/// One scheduled synthesis: a single tone, or silence, held for a fixed
/// number of samples at [`TALK_SAMPLE_RATE`].
#[derive(Clone, Copy, Debug)]
pub struct Frame {
    /// Frequency to synthesize, in hertz; `None` means silence.
    pub freq: Option<u32>,
    /// How many samples the phase lasts.
    pub samples: u64,
}

/// Number of samples a phase of `dur_us` microseconds lasts at
/// [`TALK_SAMPLE_RATE`].
pub open spec fn spec_phase_samples(dur_us: u32) -> int {
    (dur_us as int) * (TALK_SAMPLE_RATE as int) / 1_000_000
}

/// The frame scheduled for symbol `sym` (or silence) over `dur_us`
/// microseconds: the symbol's frequency, held for the exact sample count the
/// duration buys at [`TALK_SAMPLE_RATE`].
pub open spec fn spec_frame(conf: Config, sym: Option<u32>, dur_us: u32) -> Frame {
    Frame {
        freq: match sym {
            Some(s) => Some(conf.spec_symbol_freq(s as int) as u32),
            None => None,
        },
        samples: spec_phase_samples(dur_us) as u64,
    }
}

/// Builds the frames of the transmit schedule from one shared configuration.
#[derive(Clone, Copy, Debug)]
pub struct FrameBuilder {
    pub conf: Config,
}

impl FrameBuilder {
    pub fn new(conf: Config) -> (fb: FrameBuilder)
        ensures
            fb.conf == conf,
    {
        FrameBuilder { conf }
    }

    /// Schedules one phase: the tone of `sym`, or silence, for `dur_us`
    /// microseconds.
    pub fn build(&self, sym: Option<u32>, dur_us: u32) -> (fr: Frame)
        requires
            self.conf.valid(),
            sym matches Some(s) ==> s <= MAX_SYMBOL,
        ensures
            fr == spec_frame(self.conf, sym, dur_us),
    {
        let freq = match sym {
            Some(s) => Some(self.conf.symbol_freq(s)),
            None => None,
        };
        proof {
            assert((dur_us as int) * (TALK_SAMPLE_RATE as int) <= (u32::MAX as int) * (
            TALK_SAMPLE_RATE as int)) by (nonlinear_arith)
                requires
                    dur_us <= u32::MAX,
            ;
        }
        let samples = (dur_us as u64) * (TALK_SAMPLE_RATE as u64) / 1_000_000;
        Frame { freq, samples }
    }

    /// Encodes one byte, or explicit silence, as its two scheduled
    /// syntheses: the tone phase for `loud_time_us`, then the mandatory
    /// silence phase for `silent_time_us`.
    pub fn encode_symbol(&self, maybe_byte: Option<u8>) -> (fs: (Frame, Frame))
        requires
            self.conf.valid(),
        ensures
            fs.0 == spec_frame(
                self.conf,
                match maybe_byte {
                    Some(b) => Some(b as u32),
                    None => None,
                },
                self.conf.loud_time_us,
            ),
            fs.1 == spec_frame(self.conf, None, self.conf.silent_time_us),
    {
        let sym = match maybe_byte {
            Some(b) => Some(b as u32),
            None => None,
        };
        let loud = self.build(sym, self.conf.loud_time_us);
        let silent = self.build(None, self.conf.silent_time_us);
        (loud, silent)
    }
}

/// Scheduling state of the transmit path.  Consecutive bytes alternate
/// between the two redundant frequency bands: even-numbered bytes go to the
/// lower band, odd-numbered ones 256 symbols up.
#[derive(Clone, Copy, Debug)]
pub struct Transmitter {
    pub builder: FrameBuilder,
    /// How many bytes have been scheduled so far.
    pub transferred: u64,
}

impl Transmitter {
    pub fn new(conf: Config) -> (t: Transmitter)
        ensures
            t.builder.conf == conf,
            t.transferred == 0,
    {
        Transmitter { builder: FrameBuilder::new(conf), transferred: 0 }
    }

    /// Schedules the next byte: its tone phase in the band picked by the
    /// alternation, then the mandatory silence phase.
    pub fn encode_next(&mut self, b: u8) -> (fs: (Frame, Frame))
        requires
            old(self).builder.conf.valid(),
            old(self).transferred < u64::MAX,
        ensures
            final(self).builder == old(self).builder,
            final(self).transferred == old(self).transferred + 1,
            fs.0 == spec_frame(
                old(self).builder.conf,
                Some((b + 256 * (old(self).transferred % 2)) as u32),
                old(self).builder.conf.loud_time_us,
            ),
            fs.1 == spec_frame(old(self).builder.conf, None, old(self).builder.conf.silent_time_us),
    {
        let shift: u32 = if self.transferred % 2 == 1 {
            256
        } else {
            0
        };
        let sym = (b as u32) + shift;
        self.transferred = self.transferred + 1;
        let loud = self.builder.build(Some(sym), self.builder.conf.loud_time_us);
        let silent = self.builder.build(None, self.builder.conf.silent_time_us);
        (loud, silent)
    }
}

} // verus!
