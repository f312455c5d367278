use aserial::maybe_sine_wave::MaybeSineWave;
use aserial::multi_sine_wave::MultiSineWave;

#[test]
fn maybe_sine_wave_counts_out_its_budget() {
    let mut w = MaybeSineWave::new(Some(6600), 48000, 5);
    assert_eq!(w.remaining(), 5);
    for expected in 0..5u64 {
        assert_eq!(w.advance(), Some(expected));
    }
    assert_eq!(w.remaining(), 0);
    // Exhaustion is signalled, never an error, and repeats forever.
    assert_eq!(w.advance(), None);
    assert_eq!(w.advance(), None);
}

#[test]
fn silent_wave_has_the_same_protocol() {
    let mut w = MaybeSineWave::new(None, 48000, 2);
    assert_eq!(w.advance(), Some(0));
    assert_eq!(w.remaining(), 1);
    assert_eq!(w.advance(), Some(1));
    assert_eq!(w.advance(), None);
}

#[test]
fn multi_sine_wave_bounded() {
    let mut w = MultiSineWave::new(vec![440, 880], 48000, Some(3));
    assert_eq!(w.remaining(), Some(3));
    assert_eq!(w.advance(), Some(0));
    assert_eq!(w.advance(), Some(1));
    assert_eq!(w.advance(), Some(2));
    assert_eq!(w.advance(), None);
    assert_eq!(w.remaining(), Some(0));
}

#[test]
fn multi_sine_wave_unbounded() {
    let mut w = MultiSineWave::new(vec![440], 48000, None);
    assert_eq!(w.remaining(), None);
    for expected in 0..100u64 {
        assert_eq!(w.advance(), Some(expected));
    }
}
