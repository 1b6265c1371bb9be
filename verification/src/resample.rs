//! Cheap downsampling to the rate the acoustic model expects.
//!
//! The model takes 16 kHz audio. A chunk captured at another rate is thinned
//! by keeping every n-th sample, without filtering.

use vstd::prelude::*;

verus! {

/// The sample rate the acoustic model expects, in Hz.
pub const TARGET_SAMPLE_RATE: u32 = 16000;

/// The decimation step for a device rate: the whole number of device samples
/// per model sample, and never less than one, so that a device slower than the
/// model's rate is passed through instead of giving a step of zero.
pub open spec fn decimation_step(sample_rate: u32) -> int {
    if sample_rate / TARGET_SAMPLE_RATE >= 1 {
        sample_rate as int / TARGET_SAMPLE_RATE as int
    } else {
        1
    }
}

/// How many of `len` samples are kept at a given step: `len / step`, rounded up.
pub open spec fn kept_len(len: int, step: int) -> int {
    (len + step - 1) / step
}

/// Every `step`-th sample of `samples`, starting with the first.
pub open spec fn decimated<T>(samples: Seq<T>, step: int) -> Seq<T> {
    Seq::new(kept_len(samples.len() as int, step) as nat, |i: int| samples[i * step])
}

/// A chunk as the model receives it: unchanged at the model's own rate,
/// decimated at any other.
pub open spec fn resampled<T>(samples: Seq<T>, sample_rate: u32) -> Seq<T> {
    if sample_rate == TARGET_SAMPLE_RATE {
        samples
    } else {
        decimated(samples, decimation_step(sample_rate))
    }
}

proof fn lemma_kept_len_at_end(len: int, step: int, k: int)
    requires
        step >= 1,
        k >= 0,
        k * step < len,
        len <= (k + 1) * step,
    ensures
        kept_len(len, step) == k + 1,
{
    let q = (len + step - 1) / step;
    assert(q == k + 1) by (nonlinear_arith)
        requires
            step >= 1,
            k >= 0,
            k * step < len,
            len <= (k + 1) * step,
            q == (len + step - 1) / step,
    ;
}

/// Decimating with step one keeps everything.
pub proof fn lemma_step_one_keeps_all<T>(samples: Seq<T>)
    ensures
        decimated(samples, 1) == samples,
{
}

/// A chunk captured at 48 kHz is decimated with a step of three: every third
/// sample is kept, a third of the chunk, rounded up.
pub proof fn lemma_48_khz_keeps_every_third<T>(samples: Seq<T>)
    ensures
        decimation_step(48000) == 3,
        resampled(samples, 48000).len() == (samples.len() + 2) / 3,
        forall|i: int|
            0 <= i < resampled(samples, 48000).len() ==> #[trigger] resampled(samples, 48000)[i]
                == samples[3 * i],
{
}

/// Computes the decimation step for a device rate.
pub fn decimation_step_for(sample_rate: u32) -> (step: usize)
    ensures
        step == decimation_step(sample_rate),
        step >= 1,
{
    let ratio: u32 = sample_rate / TARGET_SAMPLE_RATE;
    if ratio >= 1 {
        ratio as usize
    } else {
        1
    }
}

/// Keeps every `step`-th sample of `samples`, starting with the first.
pub fn decimate<T: Copy>(samples: &Vec<T>, step: usize) -> (kept: Vec<T>)
    requires
        step >= 1,
    ensures
        kept@ == decimated(samples@, step as int),
        kept@.len() == (samples@.len() + step - 1) / (step as int),
{
    let n: usize = samples.len();
    let mut kept: Vec<T> = Vec::new();
    let mut i: usize = 0;
    proof {
        assert(kept_len(0, step as int) == 0) by (nonlinear_arith)
            requires
                step >= 1,
                kept_len(0, step as int) == (0 + step - 1) / (step as int),
        ;
        assert(0 * step == 0) by (nonlinear_arith);
    }
    while i < n
        invariant
            step >= 1,
            n == samples@.len(),
            i <= n,
            forall|j: int| 0 <= j < kept@.len() ==> kept@[j] == samples@[j * step],
            i < n ==> i == kept@.len() * step,
            i == n ==> kept@.len() == kept_len(n as int, step as int),
        decreases n - i,
    {
        kept.push(samples[i]);
        let ghost k = kept@.len() - 1;
        assert((k + 1) * step == k * step + step) by (nonlinear_arith);
        if n - i <= step {
            proof {
                lemma_kept_len_at_end(n as int, step as int, k);
            }
            i = n;
        } else {
            i = i + step;
        }
    }
    kept
}

/// Brings a chunk captured at `sample_rate` to the model's rate.
pub fn resample<T: Copy>(samples: Vec<T>, sample_rate: u32) -> (chunk: Vec<T>)
    ensures
        chunk@ == resampled(samples@, sample_rate),
{
    if sample_rate != TARGET_SAMPLE_RATE {
        let step: usize = decimation_step_for(sample_rate);
        decimate(&samples, step)
    } else {
        samples
    }
}

} // verus!
