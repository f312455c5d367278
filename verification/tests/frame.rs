use aserial::config::Config;
use aserial::frame::{FrameBuilder, Transmitter};

#[test]
fn encode_symbol_schedules_tone_then_silence() {
    // Reference configuration: byte 0x41 maps to 4000 + 40 * 65 = 6600 Hz,
    // and 0.021 s at 48000 samples per second is exactly 1008 samples.
    let fb = FrameBuilder::new(Config::new());
    let (loud, silent) = fb.encode_symbol(Some(0x41));
    assert_eq!(loud.freq, Some(6600));
    assert_eq!(loud.samples, 1008);
    assert_eq!(silent.freq, None);
    assert_eq!(silent.samples, 1008);
}

#[test]
fn encode_symbol_of_silence_is_two_silent_phases() {
    let fb = FrameBuilder::new(Config::new());
    let (loud, silent) = fb.encode_symbol(None);
    assert_eq!(loud.freq, None);
    assert_eq!(loud.samples, 1008);
    assert_eq!(silent.freq, None);
    assert_eq!(silent.samples, 1008);
}

#[test]
fn build_maps_the_top_symbol() {
    let fb = FrameBuilder::new(Config::new());
    let fr = fb.build(Some(511), 1_000_000);
    assert_eq!(fr.freq, Some(24440));
    assert_eq!(fr.samples, 48000);
}

#[test]
fn transmitter_alternates_bands() {
    let mut t = Transmitter::new(Config::new());
    // Even-numbered bytes go out in the lower band...
    let (first, gap) = t.encode_next(0x41);
    assert_eq!(first.freq, Some(6600));
    assert_eq!(gap.freq, None);
    // ...odd-numbered ones 256 symbols up: 4000 + 40 * (65 + 256) = 16840.
    let (second, _) = t.encode_next(0x41);
    assert_eq!(second.freq, Some(16840));
    // And the third byte returns to the lower band.
    let (third, _) = t.encode_next(0x00);
    assert_eq!(third.freq, Some(4000));
    assert_eq!(t.transferred, 3);
}
