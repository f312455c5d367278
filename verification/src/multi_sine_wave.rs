//! Sample bookkeeping of a superposition of tones.
//!
//! The general form of the synthesizer: any number of simultaneous
//! frequencies, and an optionally unbounded duration.  As with the
//! single-tone form, only the counting protocol lives here; the sample at
//! index `i` is the sum of `sin(2*pi*f*t)` over all frequencies at
//! `t = i / sample_rate`, a pure function of `(freqs, sample_rate, i)`
//! evaluated by the audio front end, so its amplitude never exceeds the
//! number of superposed tones.

use vstd::prelude::*;

verus! {

/// A superposition of tones, lasting `samples` samples, or unbounded when
/// `samples` is `None`.
#[derive(Debug)]
pub struct MultiSineWave {
    /// Frequencies to superpose, in hertz; empty means silence.
    pub freqs: Vec<u32>,
    /// Sample rate of the synthesis, in samples per second.
    pub sample_rate: u32,
    /// Total number of samples to produce; `None` means no bound.
    pub samples: Option<u64>,
    /// How many samples have been produced so far.
    pub num_sample: u64,
}

impl MultiSineWave {
    /// A bounded synthesis never produces more than its budget.
    pub open spec fn wf(self) -> bool {
        self.samples matches Some(n) ==> self.num_sample <= n
    }

    pub fn new(freqs: Vec<u32>, sample_rate: u32, samples: Option<u64>) -> (w: MultiSineWave)
        ensures
            w.freqs@ == freqs@,
            w.sample_rate == sample_rate,
            w.samples == samples,
            w.num_sample == 0,
            w.wf(),
    {
        MultiSineWave { freqs, sample_rate, samples, num_sample: 0 }
    }

    /// Exact number of samples still to come, or `None` when the synthesis
    /// is unbounded.
    pub fn remaining(&self) -> (r: Option<u64>)
        requires
            self.wf(),
        ensures
            match self.samples {
                Some(n) => r == Some((n - self.num_sample) as u64),
                None => r is None,
            },
    {
        match self.samples {
            Some(n) => Some(n - self.num_sample),
            None => None,
        }
    }

    /// Index of the next sample to synthesize, or `None` once the budget is
    /// exhausted.  An unbounded synthesis ends only when the index space
    /// does.
    pub fn advance(&mut self) -> (r: Option<u64>)
        ensures
            final(self).freqs@ == old(self).freqs@,
            final(self).sample_rate == old(self).sample_rate,
            final(self).samples == old(self).samples,
            ({
                let limit = match old(self).samples {
                    Some(n) => n,
                    None => u64::MAX,
                };
                if old(self).num_sample < limit {
                    r == Some(old(self).num_sample)
                        && final(self).num_sample == old(self).num_sample + 1
                } else {
                    r is None && final(self).num_sample == old(self).num_sample
                }
            }),
            old(self).wf() ==> final(self).wf(),
    {
        let limit = match self.samples {
            Some(n) => n,
            None => u64::MAX,
        };
        if self.num_sample < limit {
            let idx = self.num_sample;
            self.num_sample = self.num_sample + 1;
            Some(idx)
        } else {
            None
        }
    }
}

} // verus!
