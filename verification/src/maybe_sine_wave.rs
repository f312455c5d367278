//! Sample bookkeeping of a single-tone (or silent) synthesis.
//!
//! A synthesis is a finite, lazily produced sequence of samples.  This type
//! owns the part of it that can be pinned down exactly: the sample indices
//! come out in order, each exactly once, the remaining length is declared at
//! all times, and once the budget is exhausted every further request signals
//! end of sequence — never an error.  The value of the sample at index `i`
//! is a pure function of `(freq, sample_rate, i)` — `sin(2*pi*f*t)` at
//! `t = i / sample_rate`, or zero for silence — evaluated in floating point
//! by the audio front end.

use vstd::prelude::*;

verus! {

/// A single tone, or silence, lasting exactly `samples` samples.
#[derive(Clone, Copy, Debug)]
pub struct MaybeSineWave {
    /// Frequency of the tone, in hertz; `None` means silence.
    pub freq: Option<u32>,
    /// Sample rate of the synthesis, in samples per second.
    pub sample_rate: u32,
    /// Total number of samples the synthesis produces.
    pub samples: u64,
    /// How many samples have been produced so far.
    pub num_sample: u64,
}

impl MaybeSineWave {
    /// The synthesis never produces more than its budget.
    pub open spec fn wf(self) -> bool {
        self.num_sample <= self.samples
    }

    pub fn new(freq: Option<u32>, sample_rate: u32, samples: u64) -> (w: MaybeSineWave)
        ensures
            w.freq == freq,
            w.sample_rate == sample_rate,
            w.samples == samples,
            w.num_sample == 0,
            w.wf(),
    {
        MaybeSineWave { freq, sample_rate, samples, num_sample: 0 }
    }

    /// Exact number of samples still to come: the declared remaining length
    /// a playback sink schedules by.
    pub fn remaining(&self) -> (r: u64)
        requires
            self.wf(),
        ensures
            r == self.samples - self.num_sample,
    {
        self.samples - self.num_sample
    }

    /// Index of the next sample to synthesize, or `None` once the time
    /// budget is exhausted.
    pub fn advance(&mut self) -> (r: Option<u64>)
        ensures
            final(self).freq == old(self).freq,
            final(self).sample_rate == old(self).sample_rate,
            final(self).samples == old(self).samples,
            old(self).num_sample < old(self).samples ==> r == Some(old(self).num_sample)
                && final(self).num_sample == old(self).num_sample + 1,
            old(self).num_sample >= old(self).samples ==> r is None
                && final(self).num_sample == old(self).num_sample,
            old(self).wf() ==> final(self).wf(),
    {
        if self.num_sample < self.samples {
            let idx = self.num_sample;
            self.num_sample = self.num_sample + 1;
            Some(idx)
        } else {
            None
        }
    }
}

} // verus!
