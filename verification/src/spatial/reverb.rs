use vstd::prelude::*;

use crate::spatial::dattorro::{lemma_tap_after_write, shifted, tap, DelayLine};

verus! {

/// Reference sample rate of the Freeverb tuning tables.
pub const BASE_RATE: u32 = 44100;

/// Comb filter lengths at 44100 Hz.
pub const COMB_TUNING: [usize; 8] = [1116, 1188, 1277, 1356, 1422, 1491, 1557, 1617];

/// Allpass filter lengths at 44100 Hz.
pub const ALLPASS_TUNING: [usize; 4] = [556, 441, 341, 225];

/// Extra delay of the right channel's filters at 44100 Hz.
pub const STEREO_SPREAD: usize = 23;

/// `base * sample_rate / 44100` rounded to the nearest integer, halves up.
pub open spec fn scaled_delay(base: nat, sample_rate: nat) -> nat {
    (2 * base * sample_rate + 44100) / 88200
}

/// `scaled_delay`, saturated at `usize::MAX`.
pub open spec fn scaled_delay_usize(base: nat, sample_rate: nat) -> nat {
    if scaled_delay(base, sample_rate) <= usize::MAX {
        scaled_delay(base, sample_rate)
    } else {
        usize::MAX as nat
    }
}

/// Scale a delay length from 44100 Hz to the target sample rate.
///
/// Rounds to the nearest sample (halves up); a length past `usize::MAX`
/// saturates.
pub fn scale_delay(base: usize, sample_rate: u32) -> (n: usize)
    ensures
        n == scaled_delay_usize(base as nat, sample_rate as nat),
{
    let b = base as u128;
    let s = sample_rate as u128;
    assert(b * s <= 0xffff_ffff_ffff_ffff * 0xffff_ffff) by (nonlinear_arith)
        requires
            b <= 0xffff_ffff_ffff_ffff,
            s <= 0xffff_ffff,
    ;
    let p = b * s;
    let r = (2 * p + 44100) / 88200;
    assert(2 * (base as nat) * (sample_rate as nat) == 2 * p) by (nonlinear_arith)
        requires
            p == b * s,
            b == base,
            s == sample_rate,
    ;
    if r > usize::MAX as u128 {
        usize::MAX
    } else {
        r as usize
    }
}

/// The scaled delay is the integer nearest to `base * sample_rate / 44100`:
/// it is off by at most half a sample, and a tie rounds up.
pub proof fn lemma_scaled_delay_nearest(base: nat, sample_rate: nat)
    ensures
        2 * (scaled_delay(base, sample_rate) * 44100) <= 2 * base * sample_rate + 44100,
        2 * base * sample_rate + 44100 < 2 * (scaled_delay(base, sample_rate) * 44100) + 88200,
{
    let x = 2 * base * sample_rate + 44100;
    let q = x / 88200;
    assert(q * 88200 <= x < q * 88200 + 88200) by (nonlinear_arith)
        requires
            q == x / 88200,
            x >= 0,
    ;
    assert(2 * (q * 44100) == q * 88200) by (nonlinear_arith);
}

/// Scale every length of a tuning table, each lengthened by `spread`
/// samples first (the right channel's stereo spread, 0 for the left).
pub fn scale_delays(bases: &[usize], spread: usize, sample_rate: u32) -> (v: Vec<usize>)
    requires
        forall|i: int| 0 <= i < bases@.len() ==> bases@[i] + spread <= usize::MAX,
    ensures
        v@.len() == bases@.len(),
        forall|i: int|
            0 <= i < bases@.len() ==> v@[i] == scaled_delay_usize(
                (bases@[i] + spread) as nat,
                sample_rate as nat,
            ),
{
    let mut v: Vec<usize> = Vec::with_capacity(bases.len());
    let mut i: usize = 0;
    while i < bases.len()
        invariant
            i <= bases@.len(),
            v@.len() == i,
            forall|j: int| 0 <= j < bases@.len() ==> bases@[j] + spread <= usize::MAX,
            forall|j: int|
                0 <= j < i ==> v@[j] == scaled_delay_usize(
                    (bases@[j] + spread) as nat,
                    sample_rate as nat,
                ),
        decreases bases@.len() - i,
    {
        v.push(scale_delay(bases[i] + spread, sample_rate));
        i = i + 1;
    }
    v
}

/// Lengths of the eight comb filters of one channel at a sample rate (the
/// right channel adds the stereo spread).
pub fn comb_lengths(sample_rate: u32, right: bool) -> (v: Vec<usize>)
    ensures
        v@.len() == 8,
        forall|i: int|
            0 <= i < 8 ==> v@[i] == scaled_delay_usize(
                (COMB_TUNING@[i] + if right { STEREO_SPREAD } else { 0 }) as nat,
                sample_rate as nat,
            ),
{
    let spread = if right { STEREO_SPREAD } else { 0 };
    scale_delays(&COMB_TUNING, spread, sample_rate)
}

/// Lengths of the four allpass filters of one channel at a sample rate (the
/// right channel adds the stereo spread).
pub fn allpass_lengths(sample_rate: u32, right: bool) -> (v: Vec<usize>)
    ensures
        v@.len() == 4,
        forall|i: int|
            0 <= i < 4 ==> v@[i] == scaled_delay_usize(
                (ALLPASS_TUNING@[i] + if right { STEREO_SPREAD } else { 0 }) as nat,
                sample_rate as nat,
            ),
{
    let spread = if right { STEREO_SPREAD } else { 0 };
    scale_delays(&ALLPASS_TUNING, spread, sample_rate)
}

/// Size of the pre-delay buffer for a sample rate: 200 ms, rounded up to a
/// whole sample.
pub fn max_predelay_samples(sample_rate: u32) -> (n: usize)
    ensures
        n * 5 >= sample_rate,
        n * 5 < sample_rate + 5,
{
    ((sample_rate as u64 + 4) / 5) as usize
}

/// Pre-delay length actually used: the requested number of samples, at most
/// one less than the buffer size (and 0 for an empty buffer).
pub fn clamp_predelay(samples: usize, buffer_len: usize) -> (n: usize)
    ensures
        samples < buffer_len ==> n == samples,
        samples >= buffer_len ==> n == if buffer_len == 0 { 0 } else { buffer_len - 1 },
{
    if samples >= buffer_len {
        if buffer_len == 0 { 0 } else { buffer_len - 1 }
    } else {
        samples
    }
}

/// Pre-delay of the reverb input: each sample is stored first and then the
/// one `delay` writes before it is read, so a delay of 0 passes the input
/// straight through.
pub struct InputPreDelay<T> {
    line: DelayLine<T>,
    delay: usize,
}

impl<T> InputPreDelay<T> {
    #[verifier::type_invariant]
    spec fn inv(self) -> bool {
        self.delay < self.line.history().len()
    }

    /// Stored samples, oldest first.
    pub closed spec fn history(self) -> Seq<T> {
        self.line.history()
    }

    /// Current delay in samples.
    pub closed spec fn delay(self) -> nat {
        self.delay as nat
    }
}

impl<T: Copy> InputPreDelay<T> {
    /// A buffer of `max_samples` samples (at least one), all `fill`, with no
    /// delay set.
    pub fn new(max_samples: usize, fill: T) -> (p: InputPreDelay<T>)
        ensures
            p.history() == Seq::new(if max_samples == 0 { 1 } else { max_samples as nat }, |k: int| fill),
            p.delay() == 0,
    {
        let line = DelayLine::new(max_samples, fill);
        InputPreDelay { line, delay: 0 }
    }

    /// Set the delay, capped at one less than the buffer length.
    pub fn set_delay(&mut self, samples: usize)
        ensures
            final(self).history() == old(self).history(),
            final(self).delay() == clamp_predelay_spec(samples as nat, old(self).history().len()),
    {
        let n = self.line.len();
        self.delay = clamp_predelay(samples, n);
    }

    /// Current delay in samples.
    pub fn delay_samples(&self) -> (d: usize)
        ensures
            d == self.delay(),
            d < self.history().len(),
    {
        proof {
            use_type_invariant(self);
        }
        self.delay
    }

    /// Store `input`, then read the sample `delay` writes before it.
    pub fn process(&mut self, input: T) -> (out: T)
        ensures
            old(self).history().len() >= 1,
            old(self).delay() < old(self).history().len(),
            final(self).history().len() == old(self).history().len(),
            final(self).history() == shifted(old(self).history(), input),
            final(self).delay() == old(self).delay(),
            out == tap(final(self).history(), old(self).delay() as int + 1),
            old(self).delay() == 0 ==> out == input,
    {
        proof {
            use_type_invariant(&*self);
            lemma_tap_after_write(self.line.history(), input, 1);
        }
        let d = self.delay;
        let n = self.line.len();
        assert(d + 1 <= n);
        self.line.write(input);
        self.line.read_at(d + 1)
    }

    /// Overwrite every sample with `fill`; the delay setting is kept.
    pub fn clear(&mut self, fill: T)
        ensures
            final(self).history() == Seq::new(old(self).history().len(), |k: int| fill),
            final(self).delay() == old(self).delay(),
    {
        proof {
            use_type_invariant(&*self);
        }
        self.line.clear(fill);
    }
}

/// `clamp_predelay` on a non-empty buffer: the requested delay, at most one
/// less than the buffer length.
pub open spec fn clamp_predelay_spec(samples: nat, buffer_len: nat) -> nat {
    if samples < buffer_len {
        samples
    } else {
        (buffer_len - 1) as nat
    }
}

} // verus!
