//! Windows of raw samples and the spectra computed from them.
//!
//! The capture side cuts a continuous sample stream into fixed-length,
//! overlapping windows: every window has exactly [`WINDOW_SIZE`] samples and
//! starts [`STEP`] samples after its predecessor, so consecutive windows
//! share `WINDOW_SIZE - STEP` samples.  Samples are carried as integers, the
//! front end's fixed-point quantization of the microphone stream.
//!
//! One spectral analysis pass — the Hann smoothing window, the forward
//! Fourier transform, and the power normalization `|F[k]|^2 / WINDOW_SIZE` —
//! is floating-point work done by the audio front end; it hands the decoder
//! one magnitude per bin, quantized to the fixed-point unit the thresholds
//! use, with bin `k` covering frequency `k * BIN_WIDTH`.  A window of any
//! other length than [`WINDOW_SIZE`] must never reach analysis: that is a
//! contract violation, not a runtime condition, and every function here pins
//! the window length in its contract.

use vstd::prelude::*;

use crate::config::{BIN_WIDTH, WINDOW_SIZE};

verus! {

/// How many fresh samples separate consecutive windows.
pub const STEP: usize = 200;

/// Spectrum bin that covers frequency `freq`.
pub open spec fn spec_bin_of_freq(freq: int) -> int {
    freq / (BIN_WIDTH as int)
}

/// Spectrum bin that covers frequency `freq`, as an index into a spectrum of
/// [`WINDOW_SIZE`] magnitudes.
pub fn bin_of_freq(freq: u32) -> (b: usize)
    requires
        freq < BIN_WIDTH * WINDOW_SIZE,
    ensures
        b == spec_bin_of_freq(freq as int),
        b < WINDOW_SIZE,
{
    (freq / BIN_WIDTH) as usize
}

/// Accumulates a continuous sample stream into fixed-length overlapping
/// windows.
pub struct WindowBuilder {
    /// Samples collected toward the next window, oldest first.
    pub window: Vec<i32>,
    /// Length every emitted window has.
    pub window_size: usize,
    /// How many fresh samples each emitted window advances by.
    pub step: usize,
}

impl WindowBuilder {
    /// Between pushes the pending window is always strictly shorter than a
    /// full one, and the step stays within the window.
    pub open spec fn wf(self) -> bool {
        &&& 1 <= self.step <= self.window_size
        &&& self.window@.len() < self.window_size
    }

    pub fn new(window_size: usize, step: usize) -> (b: WindowBuilder)
        requires
            1 <= step <= window_size,
        ensures
            b.wf(),
            b.window@ == Seq::<i32>::empty(),
            b.window_size == window_size,
            b.step == step,
    {
        WindowBuilder { window: Vec::new(), window_size, step }
    }

    /// Feeds one sample.  When the pending window reaches full length it is
    /// emitted whole, and the builder retains its last
    /// `window_size - step` samples as the start of the next window.
    pub fn push_sample(&mut self, sample: i32) -> (r: Option<Vec<i32>>)
        requires
            old(self).wf(),
        ensures
            final(self).wf(),
            final(self).window_size == old(self).window_size,
            final(self).step == old(self).step,
            old(self).window@.len() + 1 == old(self).window_size ==> (r matches Some(w)
                && w@ == old(self).window@.push(sample)
                && final(self).window@ == old(self).window@.push(sample).skip(
                old(self).step as int,
            )),
            old(self).window@.len() + 1 < old(self).window_size ==> r is None
                && final(self).window@ == old(self).window@.push(sample),
    {
        self.window.push(sample);
        if self.window.len() == self.window_size {
            let ghost window_size0 = self.window_size;
            let ghost step0 = self.step;
            let mut full: Vec<i32> = Vec::new();
            core::mem::swap(&mut self.window, &mut full);
            let mut i: usize = self.step;
            while i < full.len()
                invariant
                    step0 <= i <= full@.len(),
                    full@.len() == window_size0,
                    self.window_size == window_size0,
                    self.step == step0,
                    self.window@ == full@.subrange(step0 as int, i as int),
                decreases full@.len() - i,
            {
                let s = full[i];
                self.window.push(s);
                i = i + 1;
            }
            proof {
                assert(self.window@ =~= full@.skip(step0 as int));
            }
            Some(full)
        } else {
            None
        }
    }
}

} // verus!
