//! The shared modem configuration: the frequency band, the symbol timing and
//! the hysteresis thresholds, together with its validity rules.

use vstd::prelude::*;

verus! {

/// Number of raw samples in one analysis window.
pub const WINDOW_SIZE: usize = 8820;

/// Width of one spectrum bin in hertz; the listening sample rate is assumed
/// to equal `BIN_WIDTH * WINDOW_SIZE`, so bin `k` covers frequency
/// `k * BIN_WIDTH`.
pub const BIN_WIDTH: u32 = 10;

/// Highest symbol index: the 256 byte values, replicated over two redundant
/// frequency bands.
pub const MAX_SYMBOL: u32 = 511;

/// Immutable modem configuration, shared by the modulator and the decoder.
///
/// Times are in microseconds; the hysteresis thresholds are in thousandths
/// of normalized spectral power, the unit in which the audio front end
/// quantizes magnitudes for the decoder.
#[derive(Clone, Copy, Debug, PartialEq, Eq, Structural)]
pub struct Config {
    /// Frequency of symbol 0, in hertz.
    pub base: u32,
    /// Frequency step between adjacent symbols, in hertz.
    pub scale: u32,
    /// Duration of the tone phase of one symbol, in microseconds.
    pub loud_time_us: u32,
    /// Duration of the silence phase of one symbol, in microseconds.
    pub silent_time_us: u32,
    /// A channel re-arms when its magnitude falls below this threshold.
    pub vbr_lo: u64,
    /// A peak counts as a symbol only above this threshold.
    pub vbr_hi: u64,
}

/// Rejected configurations, each fatal at setup.
#[derive(Clone, Copy, Debug, PartialEq, Eq, Structural)]
pub enum ConfigError {
    /// `base` must be positive.
    ZeroBase,
    /// `scale` must be positive.
    ZeroScale,
    /// `vbr_lo` must lie strictly below `vbr_hi`.
    ThresholdOrder,
    /// The highest symbol frequency must fall inside the analyzed spectrum.
    PassbandTooWide,
}

impl Config {
    /// The invariant every usable configuration meets: positive band
    /// parameters, ordered thresholds, and a passband that stays inside the
    /// spectrum a window can resolve.
    pub open spec fn valid(self) -> bool {
        &&& self.base >= 1
        &&& self.scale >= 1
        &&& self.vbr_lo < self.vbr_hi
        &&& self.base + self.scale * MAX_SYMBOL < BIN_WIDTH * WINDOW_SIZE
    }

    /// Frequency assigned to a symbol index: `base + scale * sym`.
    pub open spec fn spec_symbol_freq(self, sym: int) -> int {
        self.base + self.scale * sym
    }

    /// The reference configuration.
    pub fn new() -> (c: Config)
        ensures
            c == (Config {
                base: 4000u32,
                scale: 40u32,
                loud_time_us: 21000u32,
                silent_time_us: 21000u32,
                vbr_lo: 10_000u64,
                vbr_hi: 100_000u64,
            }),
            c.valid(),
    {
        Config {
            base: 4000,
            scale: 40,
            loud_time_us: 21000,
            silent_time_us: 21000,
            vbr_lo: 10_000,
            vbr_hi: 100_000,
        }
    }

    /// Checks the configuration invariant, reporting the first violated rule.
    pub fn check(&self) -> (r: Result<(), ConfigError>)
        ensures
            r is Ok <==> self.valid(),
            self.base == 0 ==> r == Result::<(), ConfigError>::Err(ConfigError::ZeroBase),
            self.base >= 1 && self.scale == 0 ==> r == Result::<(), ConfigError>::Err(
                ConfigError::ZeroScale,
            ),
            self.base >= 1 && self.scale >= 1 && self.vbr_lo >= self.vbr_hi ==> r
                == Result::<(), ConfigError>::Err(ConfigError::ThresholdOrder),
            self.base >= 1 && self.scale >= 1 && self.vbr_lo < self.vbr_hi && self.base
                + self.scale * MAX_SYMBOL >= BIN_WIDTH * WINDOW_SIZE ==> r == Result::<
                (),
                ConfigError,
            >::Err(ConfigError::PassbandTooWide),
    {
        if self.base == 0 {
            Err(ConfigError::ZeroBase)
        } else if self.scale == 0 {
            Err(ConfigError::ZeroScale)
        } else if self.vbr_lo >= self.vbr_hi {
            Err(ConfigError::ThresholdOrder)
        } else if (self.base as u64) + (self.scale as u64) * (MAX_SYMBOL as u64) >= (BIN_WIDTH
            as u64) * (WINDOW_SIZE as u64) {
            Err(ConfigError::PassbandTooWide)
        } else {
            Ok(())
        }
    }

    /// Frequency assigned to a symbol index, in hertz.
    pub fn symbol_freq(&self, sym: u32) -> (f: u32)
        requires
            self.valid(),
            sym <= MAX_SYMBOL,
        ensures
            f == self.spec_symbol_freq(sym as int),
            f < BIN_WIDTH * WINDOW_SIZE,
    {
        proof {
            assert(self.scale * sym <= self.scale * MAX_SYMBOL) by (nonlinear_arith)
                requires
                    sym <= MAX_SYMBOL,
                    self.scale >= 1,
            ;
        }
        self.base + self.scale * sym
    }
}

} // verus!
