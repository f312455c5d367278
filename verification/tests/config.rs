use aserial::config::{Config, ConfigError};

#[test]
fn reference_defaults() {
    let c = Config::new();
    assert_eq!(c.base, 4000);
    assert_eq!(c.scale, 40);
    assert_eq!(c.loud_time_us, 21000);
    assert_eq!(c.silent_time_us, 21000);
    assert_eq!(c.vbr_lo, 10_000);
    assert_eq!(c.vbr_hi, 100_000);
    assert_eq!(c.check(), Ok(()));
}

#[test]
fn zero_base_is_rejected() {
    let c = Config { base: 0, ..Config::new() };
    assert_eq!(c.check(), Err(ConfigError::ZeroBase));
}

#[test]
fn zero_scale_is_rejected() {
    let c = Config { scale: 0, ..Config::new() };
    assert_eq!(c.check(), Err(ConfigError::ZeroScale));
}

#[test]
fn unordered_thresholds_are_rejected() {
    let c = Config { vbr_lo: 100_000, vbr_hi: 100_000, ..Config::new() };
    assert_eq!(c.check(), Err(ConfigError::ThresholdOrder));
    let c = Config { vbr_lo: 200_000, vbr_hi: 100_000, ..Config::new() };
    assert_eq!(c.check(), Err(ConfigError::ThresholdOrder));
}

#[test]
fn passband_outside_spectrum_is_rejected() {
    // 80000 + 40 * 511 = 100440 >= 10 * 8820: the top symbol frequency
    // cannot be resolved by an 8820-sample window at 10 Hz per bin.
    let c = Config { base: 80_000, ..Config::new() };
    assert_eq!(c.check(), Err(ConfigError::PassbandTooWide));
}

#[test]
fn symbol_frequencies() {
    let c = Config::new();
    assert_eq!(c.symbol_freq(0), 4000);
    // Byte 0x41 = 65: 4000 + 40 * 65 = 6600 Hz.
    assert_eq!(c.symbol_freq(0x41), 6600);
    // The same byte in the upper redundant band.
    assert_eq!(c.symbol_freq(0x41 + 256), 16840);
    assert_eq!(c.symbol_freq(511), 24440);
}
