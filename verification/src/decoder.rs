//! The symbol decoder: per-channel hysteresis over a stream of spectra.
//!
//! One channel per candidate symbol, each with its own extremum tracker and
//! a "was below `vbr_lo`" flag.  Per incoming spectrum, each channel reads
//! the magnitude at its own bin; falling below `vbr_lo` arms the channel,
//! and a strict local maximum above `vbr_hi` on an armed channel emits the
//! channel's byte and disarms it.  Requiring the dip before the peak is the
//! hysteresis gate: noise ripple near one threshold cannot retrigger, and a
//! genuine tone burst emits exactly once.

use vstd::prelude::*;

use crate::config::{Config, BIN_WIDTH, MAX_SYMBOL, WINDOW_SIZE};
use crate::extremum_finder::{Extremum, ExtremumFinder};
use crate::frame::spec_frame;
use crate::spectrum::{bin_of_freq, spec_bin_of_freq};
use vstd::assert_by_contradiction;

verus! {

/// Decoding state of one candidate channel.
#[derive(Clone, Copy, Debug)]
pub struct ChannelState {
    /// Tracker of local extrema in this channel's magnitude sequence.
    pub finder: ExtremumFinder,
    /// Whether the magnitude has dropped below `vbr_lo` since the last
    /// emission: only an armed channel may emit.
    pub armed: bool,
}

impl ChannelState {
    /// A channel that has seen nothing: empty tracker, not armed.
    pub open spec fn spec_new() -> ChannelState {
        ChannelState { finder: ExtremumFinder::spec_new(), armed: false }
    }
}

/// Spectrum bin that channel `k` reads: the bin of its symbol's frequency.
pub open spec fn spec_channel_bin(conf: Config, k: int) -> int {
    spec_bin_of_freq(conf.spec_symbol_freq(k))
}

/// One decoding step of one channel on magnitude `v`: the next state, and
/// whether the channel emits its byte.
///
/// The magnitude arms the channel when it lies below `vbr_lo`; the channel
/// emits when the tracker reports a maximum while the current magnitude is
/// still above `vbr_hi` and the channel is armed, and emitting disarms it.
pub open spec fn spec_channel_step(conf: Config, st: ChannelState, v: u64) -> (ChannelState, bool) {
    let armed = st.armed || v < conf.vbr_lo;
    let pushed = st.finder.spec_push(v);
    let emits = (pushed.1 matches Some(Extremum::Maximum(_))) && v > conf.vbr_hi && armed;
    (
        ChannelState {
            finder: pushed.0,
            armed: if emits {
                false
            } else {
                armed
            },
        },
        emits,
    )
}

/// Bytes emitted while scanning channels `0..k` of one spectrum, in
/// ascending channel order: channel `k` contributes `k mod 256`.
pub open spec fn spec_emitted(conf: Config, states: Seq<ChannelState>, sp: Seq<u64>, k: int) -> Seq<
    u8,
>
    decreases k,
{
    if k <= 0 {
        Seq::empty()
    } else {
        let prior = spec_emitted(conf, states, sp, k - 1);
        if spec_channel_step(conf, states[k - 1], sp[spec_channel_bin(conf, k - 1)]).1 {
            prior.push(((k - 1) % 256) as u8)
        } else {
            prior
        }
    }
}

/// All channel states after one spectrum: each channel stepped on the
/// magnitude at its own bin.
pub open spec fn spec_step_all(conf: Config, states: Seq<ChannelState>, sp: Seq<u64>) -> Seq<
    ChannelState,
> {
    Seq::new(states.len(), |k: int| spec_channel_step(conf, states[k], sp[spec_channel_bin(conf, k)]).0)
}

/// The streaming symbol decoder: one channel per candidate symbol.
pub struct Decoder {
    /// The shared modem configuration.
    pub conf: Config,
    /// Per-symbol channel states, indexed by symbol.
    pub channels: Vec<ChannelState>,
}

impl Decoder {
    /// A decoder is usable when its configuration is valid and its channel
    /// count covers whole byte ranges within the symbol space.
    pub open spec fn wf(self) -> bool {
        &&& self.conf.valid()
        &&& 256 <= self.channels@.len() <= MAX_SYMBOL + 1
    }

    /// A fresh decoder covering the 256 byte values over `bands` redundant
    /// frequency bands.
    pub fn new(conf: Config, bands: u32) -> (d: Decoder)
        requires
            conf.valid(),
            1 <= bands,
            256 * bands <= MAX_SYMBOL + 1,
        ensures
            d.wf(),
            d.conf == conf,
            d.channels@.len() == 256 * bands,
            forall|k: int|
                0 <= k < d.channels@.len() ==> d.channels@[k] == ChannelState::spec_new(),
    {
        let n = (256 * bands) as usize;
        let mut channels: Vec<ChannelState> = Vec::new();
        let mut k: usize = 0;
        while k < n
            invariant
                k <= n,
                channels@.len() == k,
                forall|j: int| 0 <= j < k ==> channels@[j] == ChannelState::spec_new(),
            decreases n - k,
        {
            channels.push(ChannelState { finder: ExtremumFinder::new(), armed: false });
            k = k + 1;
        }
        Decoder { conf, channels }
    }

    /// Decodes one spectrum: every channel steps on the magnitude at its own
    /// bin, and the bytes of the channels that emit come out in ascending
    /// channel order.
    pub fn process_window(&mut self, spectrum: &Vec<u64>) -> (out: Vec<u8>)
        requires
            old(self).wf(),
            spectrum@.len() == WINDOW_SIZE,
        ensures
            final(self).wf(),
            final(self).conf == old(self).conf,
            final(self).channels@ == spec_step_all(old(self).conf, old(self).channels@, spectrum@),
            out@ == spec_emitted(
                old(self).conf,
                old(self).channels@,
                spectrum@,
                old(self).channels@.len() as int,
            ),
    {
        let ghost conf0 = self.conf;
        let ghost states0 = self.channels@;
        let n = self.channels.len();
        let mut out: Vec<u8> = Vec::new();
        let mut k: usize = 0;
        while k < n
            invariant
                k <= n,
                n == states0.len(),
                n <= MAX_SYMBOL + 1,
                self.conf == conf0,
                conf0.valid(),
                spectrum@.len() == WINDOW_SIZE,
                self.channels@.len() == n,
                forall|j: int|
                    0 <= j < k ==> self.channels@[j] == spec_channel_step(
                        conf0,
                        states0[j],
                        spectrum@[spec_channel_bin(conf0, j)],
                    ).0,
                forall|j: int| k <= j < n ==> self.channels@[j] == states0[j],
                out@ == spec_emitted(conf0, states0, spectrum@, k as int),
            decreases n - k,
        {
            let freq = self.conf.symbol_freq(k as u32);
            let bin = bin_of_freq(freq);
            let v = spectrum[bin];
            let mut ch = self.channels[k];
            let armed = ch.armed || v < self.conf.vbr_lo;
            let report = ch.finder.push(v);
            let is_max = match report {
                Some(Extremum::Maximum(_)) => true,
                _ => false,
            };
            let emits = is_max && v > self.conf.vbr_hi && armed;
            ch.armed = if emits {
                false
            } else {
                armed
            };
            self.channels[k] = ch;
            if emits {
                out.push((k % 256) as u8);
            }
            k = k + 1;
        }
        proof {
            assert(self.channels@ =~= spec_step_all(conf0, states0, spectrum@));
        }
        out
    }
}

/// Channel states of a decoder that consumed the first `n` spectra of
/// `sps`, strictly in arrival order.
pub open spec fn spec_run_states(
    conf: Config,
    states: Seq<ChannelState>,
    sps: Seq<Seq<u64>>,
    n: int,
) -> Seq<ChannelState>
    decreases n,
{
    if n <= 0 {
        states
    } else {
        spec_step_all(conf, spec_run_states(conf, states, sps, n - 1), sps[n - 1])
    }
}

/// Everything a decoder emits while consuming the first `n` spectra of
/// `sps` in arrival order: the per-spectrum emissions, concatenated.
pub open spec fn spec_run_emitted(
    conf: Config,
    states: Seq<ChannelState>,
    sps: Seq<Seq<u64>>,
    n: int,
) -> Seq<u8>
    decreases n,
{
    if n <= 0 {
        Seq::empty()
    } else {
        spec_run_emitted(conf, states, sps, n - 1) + spec_emitted(
            conf,
            spec_run_states(conf, states, sps, n - 1),
            sps[n - 1],
            states.len() as int,
        )
    }
}

impl Decoder {
    /// Consumes a backlog of spectra strictly in arrival order, running
    /// each to completion before taking the next, and returns every byte
    /// decoded along the way, in emission order.  This is the consumer side
    /// of the pipeline: no reordering and no parallel analysis, since the
    /// channel state is sequential and fold-dependent.
    pub fn process_all(&mut self, spectra: &Vec<Vec<u64>>) -> (out: Vec<u8>)
        requires
            old(self).wf(),
            forall|i: int| 0 <= i < spectra@.len() ==> (#[trigger] spectra@[i])@.len()
                == WINDOW_SIZE,
        ensures
            final(self).wf(),
            final(self).conf == old(self).conf,
            final(self).channels@ == spec_run_states(
                old(self).conf,
                old(self).channels@,
                spectra@.map_values(|sp: Vec<u64>| sp@),
                spectra@.len() as int,
            ),
            out@ == spec_run_emitted(
                old(self).conf,
                old(self).channels@,
                spectra@.map_values(|sp: Vec<u64>| sp@),
                spectra@.len() as int,
            ),
    {
        let ghost conf0 = self.conf;
        let ghost states0 = self.channels@;
        let ghost sps = spectra@.map_values(|sp: Vec<u64>| sp@);
        let mut out: Vec<u8> = Vec::new();
        let mut i: usize = 0;
        while i < spectra.len()
            invariant
                i <= spectra@.len(),
                sps == spectra@.map_values(|sp: Vec<u64>| sp@),
                forall|j: int| 0 <= j < spectra@.len() ==> (#[trigger] spectra@[j])@.len()
                    == WINDOW_SIZE,
                self.conf == conf0,
                self.wf(),
                self.channels@.len() == states0.len(),
                self.channels@ == spec_run_states(conf0, states0, sps, i as int),
                out@ == spec_run_emitted(conf0, states0, sps, i as int),
            decreases spectra@.len() - i,
        {
            let mut bytes = self.process_window(&spectra[i]);
            out.append(&mut bytes);
            i = i + 1;
        }
        out
    }
}

/// Sum of the magnitudes of bins `from..to`.
pub open spec fn spec_sum(sp: Seq<u64>, from: int, to: int) -> int
    decreases to - from,
{
    if to <= from {
        0
    } else {
        spec_sum(sp, from, to - 1) + sp[to - 1]
    }
}

/// The adaptive noise-floor reference of one spectrum: the mean magnitude
/// over the candidate passband, from the bin of symbol 0's frequency up to
/// (excluding) the bin of the highest byte frequency `base + scale * 255`.
pub open spec fn spec_baseline(conf: Config, sp: Seq<u64>) -> int {
    spec_sum(sp, spec_channel_bin(conf, 0), spec_channel_bin(conf, 255)) / (spec_channel_bin(
        conf,
        255,
    ) - spec_channel_bin(conf, 0))
}

/// Mean magnitude over the candidate passband of one spectrum, recomputed
/// per window so the reference adapts to changing room noise.
pub fn passband_baseline(conf: &Config, spectrum: &Vec<u64>) -> (b: u64)
    requires
        conf.valid(),
        spectrum@.len() == WINDOW_SIZE,
    ensures
        b == spec_baseline(*conf, spectrum@),
{
    let from = bin_of_freq(conf.symbol_freq(0));
    let to = bin_of_freq(conf.symbol_freq(255));
    proof {
        assert(conf.spec_symbol_freq(255) >= conf.base + 255) by (nonlinear_arith)
            requires
                conf.scale >= 1,
        ;
        assert(to >= from + 25);
    }
    let mut sum: u128 = 0;
    let mut i: usize = from;
    while i < to
        invariant
            from <= i <= to,
            to <= spectrum@.len(),
            sum == spec_sum(spectrum@, from as int, i as int),
            sum <= (i - from) * (u64::MAX as int),
        decreases to - i,
    {
        proof {
            assert((i - from + 1) * (u64::MAX as int) <= (to - from) * (u64::MAX as int)
                && sum + spectrum@[i as int] <= (i - from + 1) * (u64::MAX as int)) by (
            nonlinear_arith)
                requires
                    sum <= (i - from) * (u64::MAX as int),
                    spectrum@[i as int] <= u64::MAX,
                    from <= i < to,
            ;
        }
        sum = sum + (spectrum[i] as u128);
        i = i + 1;
    }
    let count = (to - from) as u128;
    let mean = sum / count;
    proof {
        assert((sum as int) / (count as int) <= u64::MAX) by (nonlinear_arith)
            requires
                count >= 1,
                sum <= (count as int) * (u64::MAX as int),
        ;
    }
    mean as u64
}

/// Channel state after feeding the first `n` magnitudes of `vals` to one
/// channel.
pub open spec fn run_channel(
    conf: Config,
    st0: ChannelState,
    vals: Seq<u64>,
    n: int,
) -> ChannelState
    decreases n,
{
    if n <= 0 {
        st0
    } else {
        spec_channel_step(conf, run_channel(conf, st0, vals, n - 1), vals[n - 1]).0
    }
}

/// Whether a channel started in `st0` emits on the `i`-th magnitude of
/// `vals`.
pub open spec fn spec_channel_emits(conf: Config, st0: ChannelState, vals: Seq<u64>, i: int) -> bool {
    spec_channel_step(conf, run_channel(conf, st0, vals, i), vals[i]).1
}

/// After an emission the channel stays disarmed for as long as its
/// magnitude never falls below `vbr_lo`.
proof fn lemma_disarmed_until_dip(conf: Config, st0: ChannelState, vals: Seq<u64>, i: int, t: int)
    requires
        conf.vbr_lo <= conf.vbr_hi,
        0 <= i < t <= vals.len(),
        spec_channel_emits(conf, st0, vals, i),
        forall|m: int| i < m < t ==> vals[m] >= conf.vbr_lo,
    ensures
        !run_channel(conf, st0, vals, t).armed,
    decreases t - i,
{
    if t > i + 1 {
        lemma_disarmed_until_dip(conf, st0, vals, i, t - 1);
    }
}

/// Law (hysteresis): however long the magnitude stays elevated, a channel
/// cannot emit twice without the magnitude first dropping below `vbr_lo`
/// strictly between the two emissions.
pub proof fn lemma_no_double_emission(
    conf: Config,
    st0: ChannelState,
    vals: Seq<u64>,
    i: int,
    j: int,
)
    requires
        conf.vbr_lo <= conf.vbr_hi,
        0 <= i < j < vals.len(),
        spec_channel_emits(conf, st0, vals, i),
        spec_channel_emits(conf, st0, vals, j),
    ensures
        exists|m: int| i < m < j && vals[m] < conf.vbr_lo,
{
    assert_by_contradiction!(exists|m: int| i < m < j && vals[m] < conf.vbr_lo, {
        assert(forall|m: int| i < m < j ==> vals[m] >= conf.vbr_lo);
        lemma_disarmed_until_dip(conf, st0, vals, i, j);
        assert(vals[j] > conf.vbr_hi);
        assert(false);
    });
}

/// The magnitudes channel `k` reads from a spectrum stream: one value per
/// spectrum, at the channel's own bin.
pub open spec fn spec_channel_values(conf: Config, sps: Seq<Seq<u64>>, k: int) -> Seq<u64> {
    Seq::new(sps.len(), |i: int| sps[i][spec_channel_bin(conf, k)])
}

/// A decoder run never changes the number of channels.
proof fn lemma_run_states_len(conf: Config, states: Seq<ChannelState>, sps: Seq<Seq<u64>>, n: int)
    ensures
        spec_run_states(conf, states, sps, n).len() == states.len(),
    decreases n,
{
    if n > 0 {
        lemma_run_states_len(conf, states, sps, n - 1);
    }
}

/// In a decoder run the channels evolve independently: after any number of
/// spectra, channel `k` holds exactly the single-channel run over the
/// magnitudes at its own bin.
pub proof fn lemma_run_states_channelwise(
    conf: Config,
    states: Seq<ChannelState>,
    sps: Seq<Seq<u64>>,
    n: int,
    k: int,
)
    requires
        0 <= k < states.len(),
        0 <= n <= sps.len(),
    ensures
        spec_run_states(conf, states, sps, n)[k] == run_channel(
            conf,
            states[k],
            spec_channel_values(conf, sps, k),
            n,
        ),
    decreases n,
{
    if n > 0 {
        lemma_run_states_channelwise(conf, states, sps, n - 1, k);
        lemma_run_states_len(conf, states, sps, n - 1);
    }
}

/// Law (hysteresis, pipeline form): over any spectrum stream a decoder
/// consumes, a channel that emits in two windows must have seen its
/// magnitude below `vbr_lo` in some window strictly between them.
pub proof fn lemma_no_double_emission_in_run(
    conf: Config,
    states: Seq<ChannelState>,
    sps: Seq<Seq<u64>>,
    k: int,
    i: int,
    j: int,
)
    requires
        conf.vbr_lo <= conf.vbr_hi,
        0 <= k < states.len(),
        0 <= i < j < sps.len(),
        spec_channel_step(
            conf,
            spec_run_states(conf, states, sps, i)[k],
            sps[i][spec_channel_bin(conf, k)],
        ).1,
        spec_channel_step(
            conf,
            spec_run_states(conf, states, sps, j)[k],
            sps[j][spec_channel_bin(conf, k)],
        ).1,
    ensures
        exists|m: int| i < m < j && sps[m][spec_channel_bin(conf, k)] < conf.vbr_lo,
{
    let vals = spec_channel_values(conf, sps, k);
    lemma_run_states_channelwise(conf, states, sps, i, k);
    lemma_run_states_channelwise(conf, states, sps, j, k);
    assert(spec_channel_emits(conf, states[k], vals, i));
    assert(spec_channel_emits(conf, states[k], vals, j));
    lemma_no_double_emission(conf, states[k], vals, i, j);
    let m = choose|m: int| i < m < j && vals[m] < conf.vbr_lo;
    assert(sps[m][spec_channel_bin(conf, k)] < conf.vbr_lo);
}

/// A spectrum of [`WINDOW_SIZE`] bins whose magnitude is `v` at `bin` and
/// zero everywhere else: the idealized, noise-free picture of one tone.
pub open spec fn spec_tone_spectrum(bin: int, v: u64) -> Seq<u64> {
    Seq::new(
        WINDOW_SIZE as nat,
        |i: int|
            if i == bin {
                v
            } else {
                0u64
            },
    )
}

/// Channel states of a decoder that has seen nothing yet.
pub open spec fn spec_fresh_channels(n: int) -> Seq<ChannelState> {
    Seq::new(n as nat, |k: int| ChannelState::spec_new())
}

/// With at least one bin width between adjacent symbols, channel bins
/// strictly increase with the symbol index, so distinct channels read
/// distinct bins.
proof fn lemma_channel_bins_increase(conf: Config, k1: int, k2: int)
    requires
        conf.valid(),
        conf.scale >= BIN_WIDTH,
        0 <= k1 < k2 <= MAX_SYMBOL,
    ensures
        spec_channel_bin(conf, k1) < spec_channel_bin(conf, k2),
{
    assert(conf.spec_symbol_freq(k2) - conf.spec_symbol_freq(k1) >= BIN_WIDTH) by (nonlinear_arith)
        requires
            conf.spec_symbol_freq(k1) == conf.base + conf.scale * k1,
            conf.spec_symbol_freq(k2) == conf.base + conf.scale * k2,
            k1 < k2,
            conf.scale >= BIN_WIDTH,
    ;
}

/// Every channel of a decoder reads a bin inside the spectrum.
proof fn lemma_channel_bin_in_range(conf: Config, k: int)
    requires
        conf.valid(),
        0 <= k <= MAX_SYMBOL,
    ensures
        0 <= spec_channel_bin(conf, k) < WINDOW_SIZE,
{
    assert(conf.scale * k <= conf.scale * MAX_SYMBOL) by (nonlinear_arith)
        requires
            0 <= k <= MAX_SYMBOL,
            conf.scale >= 1,
    ;
}

/// When no channel emits on a spectrum, the emitted byte sequence is empty.
proof fn lemma_emitted_none(conf: Config, states: Seq<ChannelState>, sp: Seq<u64>, k: int)
    requires
        forall|j: int|
            0 <= j < k ==> !spec_channel_step(conf, states[j], sp[spec_channel_bin(conf, j)]).1,
    ensures
        spec_emitted(conf, states, sp, k) == Seq::<u8>::empty(),
    decreases k,
{
    if k > 0 {
        lemma_emitted_none(conf, states, sp, k - 1);
    }
}

/// When exactly one channel emits on a spectrum, the emitted byte sequence
/// is that channel's byte alone.
proof fn lemma_emitted_single(conf: Config, states: Seq<ChannelState>, sp: Seq<u64>, k: int, e: int)
    requires
        0 <= e < k,
        spec_channel_step(conf, states[e], sp[spec_channel_bin(conf, e)]).1,
        forall|j: int|
            0 <= j < k && j != e ==> !spec_channel_step(
                conf,
                states[j],
                sp[spec_channel_bin(conf, j)],
            ).1,
    ensures
        spec_emitted(conf, states, sp, k) == seq![((e % 256) as u8)],
    decreases k,
{
    if e == k - 1 {
        lemma_emitted_none(conf, states, sp, k - 1);
        assert(spec_emitted(conf, states, sp, k) =~= seq![((e % 256) as u8)]);
    } else {
        lemma_emitted_single(conf, states, sp, k - 1, e);
    }
}

/// Law (round trip): transmitting any byte and hearing it back noise-free
/// decodes exactly that byte, exactly once.
///
/// `encode_symbol(b)` schedules a tone at the frequency of symbol `b`, and
/// an aligned, noise-free listener sees spectra whose only energy sits at
/// that tone's bin — the first conjunct of the conclusion pins that bin to
/// the scheduled frequency.  Fed the idealized profile of one such burst —
/// a silent spectrum (the preceding silence phase, arming every channel),
/// the peak of the tone phase, then its trailing edge still above `vbr_hi`
/// — a fresh decoder of `n` channels emits nothing, nothing, and then the
/// byte `b` alone.
pub proof fn lemma_round_trip(conf: Config, b: u8, n: int)
    requires
        conf.valid(),
        conf.scale >= BIN_WIDTH,
        1 <= conf.vbr_lo,
        conf.vbr_hi + 2 <= u64::MAX,
        b < n <= MAX_SYMBOL + 1,
    ensures
        ({
            let bin = spec_channel_bin(conf, b as int);
            let silent = spec_tone_spectrum(bin, 0);
            let peak = spec_tone_spectrum(bin, (conf.vbr_hi + 2) as u64);
            let fading = spec_tone_spectrum(bin, (conf.vbr_hi + 1) as u64);
            let s0 = spec_fresh_channels(n);
            let s1 = spec_step_all(conf, s0, silent);
            let s2 = spec_step_all(conf, s1, peak);
            &&& (spec_frame(conf, Some(b as u32), conf.loud_time_us).freq matches Some(f)
                && spec_bin_of_freq(f as int) == bin)
            &&& spec_emitted(conf, s0, silent, n) == Seq::<u8>::empty()
            &&& spec_emitted(conf, s1, peak, n) == Seq::<u8>::empty()
            &&& spec_emitted(conf, s2, fading, n) == seq![b]
        }),
{
    let bin = spec_channel_bin(conf, b as int);
    let hi1 = (conf.vbr_hi + 1) as u64;
    let hi2 = (conf.vbr_hi + 2) as u64;
    let silent = spec_tone_spectrum(bin, 0);
    let peak = spec_tone_spectrum(bin, hi2);
    let fading = spec_tone_spectrum(bin, hi1);
    let s0 = spec_fresh_channels(n);
    let s1 = spec_step_all(conf, s0, silent);
    let s2 = spec_step_all(conf, s1, peak);

    // The scheduled tone frequency fits in its word and owns the bin.
    assert(conf.scale * (b as int) <= conf.scale * MAX_SYMBOL) by (nonlinear_arith)
        requires
            0 <= b as int <= MAX_SYMBOL,
            conf.scale >= 1,
    ;
    assert(conf.spec_symbol_freq(b as int) as u32 == conf.spec_symbol_freq(b as int));

    // Each channel reads a bin inside the spectrum, and only channel `b`
    // reads the tone's bin.
    assert forall|k: int| 0 <= k < n implies 0 <= #[trigger] spec_channel_bin(conf, k)
        < WINDOW_SIZE by {
        lemma_channel_bin_in_range(conf, k);
    }
    assert forall|k: int| 0 <= k < n && k != b implies spec_channel_bin(conf, k) != bin by {
        if k < b {
            lemma_channel_bins_increase(conf, k, b as int);
        } else {
            lemma_channel_bins_increase(conf, b as int, k);
        }
    }

    // First spectrum: silence everywhere.  Every channel arms; none emits.
    let st1 = ChannelState {
        finder: ExtremumFinder { prev2: None, prev1: None, last: Some(0u64) },
        armed: true,
    };
    assert forall|k: int| 0 <= k < n implies !spec_channel_step(
        conf,
        s0[k],
        silent[spec_channel_bin(conf, k)],
    ).1 && s1[k] == st1 by {
        assert(silent[spec_channel_bin(conf, k)] == 0);
    }
    lemma_emitted_none(conf, s0, silent, n);

    // Second spectrum: the tone's peak.  Trackers still lack a third value
    // at the tone bin and see a flat zero elsewhere; none emits.
    let st2_off = ChannelState {
        finder: ExtremumFinder { prev2: None, prev1: Some(0u64), last: Some(0u64) },
        armed: true,
    };
    let st2_on = ChannelState {
        finder: ExtremumFinder { prev2: None, prev1: Some(0u64), last: Some(hi2) },
        armed: true,
    };
    assert forall|k: int| 0 <= k < n implies !spec_channel_step(
        conf,
        s1[k],
        peak[spec_channel_bin(conf, k)],
    ).1 && s2[k] == (if k == b {
        st2_on
    } else {
        st2_off
    }) by {
        assert(s1[k] == st1);
        if k != b {
            assert(peak[spec_channel_bin(conf, k)] == 0);
        }
    }
    lemma_emitted_none(conf, s1, peak, n);

    // Third spectrum: the trailing edge.  Channel `b` sees the strict local
    // maximum of an armed channel still above `vbr_hi` and emits its byte;
    // all others see an unbroken flat zero.
    assert forall|k: int| 0 <= k < n && k != b implies !spec_channel_step(
        conf,
        s2[k],
        fading[spec_channel_bin(conf, k)],
    ).1 by {
        assert(s2[k] == st2_off);
        assert(fading[spec_channel_bin(conf, k)] == 0);
    }
    assert(s2[b as int] == st2_on);
    assert(spec_channel_step(conf, s2[b as int], fading[bin]).1);
    lemma_emitted_single(conf, s2, fading, n, b as int);
    assert(seq![(((b as int) % 256) as u8)] =~= seq![b]);
}

} // verus!
