use aserial::config::{Config, WINDOW_SIZE};
use aserial::decoder::{passband_baseline, Decoder};

/// A spectrum that is silent except for one bin.
fn spectrum_with(bin: usize, v: u64) -> Vec<u64> {
    let mut sp = vec![0u64; WINDOW_SIZE];
    sp[bin] = v;
    sp
}

#[test]
fn one_burst_decodes_one_byte() {
    // Byte 0x41 lives at 6600 Hz, bin 660.  A silent window arms the
    // channel, the tone's peak fills the tracker, and the trailing edge —
    // still above vbr_hi — is the strict local maximum that emits.
    let conf = Config::new();
    let mut d = Decoder::new(conf, 2);
    assert_eq!(d.process_window(&spectrum_with(660, 0)), vec![]);
    assert_eq!(d.process_window(&spectrum_with(660, 551_250)), vec![]);
    assert_eq!(d.process_window(&spectrum_with(660, 166_000)), vec![0x41]);
}

#[test]
fn elevated_magnitude_cannot_emit_twice() {
    // Hysteresis: after the first emission the channel is disarmed, and
    // ripple above vbr_hi — with genuine strict local maxima — must not
    // emit again until the magnitude first falls below vbr_lo.
    let conf = Config::new();
    let mut d = Decoder::new(conf, 2);
    let mut emitted = Vec::new();
    let profile: &[u64] = &[
        0,        // arms the channel
        551_250,  // tone peak
        150_000,  // emits: maximum, above vbr_hi, armed
        160_000,  // ripple: 150k / 160k / 150k is a strict maximum...
        150_000,  // ...but the channel is no longer armed
        160_000,
        150_000,
        5_000,    // drops below vbr_lo: re-arms
        551_250,  // a second genuine burst
        150_000,  // emits again
    ];
    for &v in profile {
        emitted.extend(d.process_window(&spectrum_with(660, v)));
    }
    assert_eq!(emitted, vec![0x41, 0x41]);
}

#[test]
fn peak_without_prior_dip_never_emits() {
    // A channel that was never below vbr_lo is not armed: the very first
    // windows a decoder sees can hold a loud tone without emitting.
    let conf = Config::new();
    let mut d = Decoder::new(conf, 2);
    assert_eq!(d.process_window(&spectrum_with(660, 200_000)), vec![]);
    assert_eq!(d.process_window(&spectrum_with(660, 551_250)), vec![]);
    assert_eq!(d.process_window(&spectrum_with(660, 166_000)), vec![]);
}

#[test]
fn peak_below_vbr_hi_never_emits() {
    // A maximum on an armed channel that stays under vbr_hi is noise.
    let conf = Config::new();
    let mut d = Decoder::new(conf, 2);
    assert_eq!(d.process_window(&spectrum_with(660, 0)), vec![]);
    assert_eq!(d.process_window(&spectrum_with(660, 90_000)), vec![]);
    assert_eq!(d.process_window(&spectrum_with(660, 50_000)), vec![]);
}

#[test]
fn concurrent_peaks_come_out_in_channel_order() {
    // Two simultaneous tones: bytes come out ordered by channel index
    // within one window.
    let conf = Config::new();
    let mut d = Decoder::new(conf, 2);
    let mut sp = vec![0u64; WINDOW_SIZE];
    // Byte 0x10 at bin 400 + 4 * 16 = 464; byte 0x02 at bin 408.
    d.process_window(&sp);
    sp[464] = 551_250;
    sp[408] = 551_250;
    assert_eq!(d.process_window(&sp), vec![]);
    sp[464] = 166_000;
    sp[408] = 166_000;
    assert_eq!(d.process_window(&sp), vec![0x02, 0x10]);
}

#[test]
fn upper_band_channel_maps_back_to_its_byte() {
    // Channel 0x41 + 256 reads bin (4000 + 40 * 321) / 10 = 1684 and emits
    // the same byte 0x41.
    let conf = Config::new();
    let mut d = Decoder::new(conf, 2);
    assert_eq!(d.process_window(&spectrum_with(1684, 0)), vec![]);
    assert_eq!(d.process_window(&spectrum_with(1684, 551_250)), vec![]);
    assert_eq!(d.process_window(&spectrum_with(1684, 166_000)), vec![0x41]);
}

#[test]
fn a_backlog_is_drained_in_arrival_order() {
    // Two bursts queued up faster than they are analyzed: draining the
    // backlog in one call decodes them in exactly their arrival order.
    let conf = Config::new();
    let mut d = Decoder::new(conf, 2);
    let backlog = vec![
        spectrum_with(660, 0),
        spectrum_with(660, 551_250),
        spectrum_with(660, 166_000),
        spectrum_with(660, 0),
        spectrum_with(464, 551_250),
        spectrum_with(464, 166_000),
    ];
    assert_eq!(d.process_all(&backlog), vec![0x41, 0x10]);
}

#[test]
fn baseline_is_the_passband_mean() {
    // The passband of the reference configuration runs from bin 400
    // (symbol 0 at 4000 Hz) up to bin 1420 (the top byte frequency
    // 4000 + 40 * 255 = 14200 Hz): 1020 bins.
    let conf = Config::new();
    let sp = vec![0u64; WINDOW_SIZE];
    assert_eq!(passband_baseline(&conf, &sp), 0);
    let mut sp = vec![0u64; WINDOW_SIZE];
    sp[400] = 1_020_000;
    assert_eq!(passband_baseline(&conf, &sp), 1000);
    // Energy outside the passband does not move the baseline.
    sp[0] = 999_999_999;
    sp[1420] = 999_999_999;
    assert_eq!(passband_baseline(&conf, &sp), 1000);
    // A uniform passband averages to itself.
    let sp = vec![7_000u64; WINDOW_SIZE];
    assert_eq!(passband_baseline(&conf, &sp), 7_000);
}
