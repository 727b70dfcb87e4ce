use vstd::prelude::*;

use crate::spatial::dattorro::{DelayLine, shifted, tap};

verus! {

/// Delay line read at fractional delays by an interpolation kernel of
/// `num_points` taps (the core of chorus, flanger and delay).
///
/// This type holds the samples and does the index arithmetic; the kernel
/// weights and the fractional part of the delay are applied by the caller
/// to the taps it returns.
pub struct FractionalDelayLine<T> {
    line: DelayLine<T>,
    max_delay_samples: usize,
    num_points: usize,
}

impl<T> FractionalDelayLine<T> {
    #[verifier::type_invariant]
    spec fn inv(self) -> bool {
        self.line.history().len() == self.max_delay_samples + self.num_points + 1
    }

    /// Stored samples, oldest first.
    pub closed spec fn history(self) -> Seq<T> {
        self.line.history()
    }

    /// Largest delay (in whole samples) that reads are clamped to.
    pub closed spec fn max_delay(self) -> nat {
        self.max_delay_samples as nat
    }

    /// Width of the interpolation kernel.
    pub closed spec fn points(self) -> nat {
        self.num_points as nat
    }
}

impl<T: Copy> FractionalDelayLine<T> {
    /// A delay line for delays up to `max_delay_samples`, with room for a
    /// kernel of `sinc_points` taps, filled with `fill`.
    pub fn new(max_delay_samples: usize, sinc_points: usize, fill: T) -> (d: FractionalDelayLine<T>)
        requires
            max_delay_samples + sinc_points + 1 <= usize::MAX,
        ensures
            d.history() == Seq::new((max_delay_samples + sinc_points + 1) as nat, |k: int| fill),
            d.max_delay() == max_delay_samples,
            d.points() == sinc_points,
    {
        let line = DelayLine::new(max_delay_samples + sinc_points + 1, fill);
        FractionalDelayLine { line, max_delay_samples, num_points: sinc_points }
    }

    /// Write one sample, advancing the write head.
    pub fn write(&mut self, sample: T)
        ensures
            old(self).history().len() == old(self).max_delay() + old(self).points() + 1,
            final(self).history().len() == old(self).history().len(),
            final(self).history() == shifted(old(self).history(), sample),
            final(self).max_delay() == old(self).max_delay(),
            final(self).points() == old(self).points(),
    {
        proof {
            use_type_invariant(&*self);
        }
        self.line.write(sample);
    }

    /// Maximum delay in samples (as configured at construction time).
    pub fn max_delay_samples(&self) -> (m: usize)
        ensures
            m == self.max_delay(),
            self.history().len() == self.max_delay() + self.points() + 1,
    {
        proof {
            use_type_invariant(self);
        }
        self.max_delay_samples
    }

    /// A whole delay clamped to the largest one the line holds: reads never
    /// reach further back than `max_delay()`.
    pub fn clamp_delay(&self, whole: usize) -> (d: usize)
        ensures
            d == if whole <= self.max_delay() { whole as nat } else { self.max_delay() },
            d <= self.max_delay(),
    {
        if whole <= self.max_delay_samples {
            whole
        } else {
            self.max_delay_samples
        }
    }

    /// Width of the interpolation kernel.
    pub fn num_points(&self) -> (n: usize)
        ensures
            n == self.points(),
            self.history().len() == self.max_delay() + self.points() + 1,
    {
        proof {
            use_type_invariant(self);
        }
        self.num_points
    }

    /// Overwrite every sample with `fill` and reset the write position.
    pub fn clear(&mut self, fill: T)
        ensures
            final(self).history() == Seq::new(old(self).history().len(), |k: int| fill),
            final(self).max_delay() == old(self).max_delay(),
            final(self).points() == old(self).points(),
    {
        proof {
            use_type_invariant(&*self);
        }
        self.line.clear(fill);
    }

    /// Sample under kernel tap `j` for a whole delay of `delay_int` samples.
    /// Delay 0 is the newest sample; taps run from `num_points / 2 - 1`
    /// samples newer than the delay point to `num_points / 2` older.
    pub fn kernel_tap(&self, delay_int: usize, j: usize) -> (out: T)
        requires
            delay_int <= self.max_delay(),
            j < self.points(),
        ensures
            out == tap(self.history(), delay_int + j + 2 - self.points() / 2),
    {
        proof {
            use_type_invariant(self);
        }
        let len = self.line.len();
        let half = self.num_points / 2;
        let base = delay_int + j + 2;
        let off = if base >= half { base - half } else { base + (len - half) };
        proof {
            lemma_tap_add_len(self.history(), base - half);
        }
        self.line.read_at(off)
    }

    /// The two samples that linear interpolation blends for a whole delay of
    /// `delay_int`: the one `delay_int` samples before the newest, and the one
    /// before it.
    pub fn linear_taps(&self, delay_int: usize) -> (pair: (T, T))
        requires
            delay_int <= self.max_delay(),
        ensures
            pair.0 == tap(self.history(), delay_int + 1),
            pair.1 == tap(self.history(), delay_int + 2),
    {
        proof {
            use_type_invariant(self);
        }
        let len = self.line.len();
        let first = delay_int + 1;
        let second = first % len + 1;
        proof {
            vstd::arithmetic::div_mod::lemma_add_mod_noop_right(1, first as int, len as int);
        }
        let a = self.line.read_at(first);
        let b = self.line.read_at(second);
        (a, b)
    }
}

/// Taps are periodic in the length of the line.
pub proof fn lemma_tap_add_len<T>(h: Seq<T>, offset: int)
    requires
        h.len() >= 1,
    ensures
        tap(h, offset + h.len()) == tap(h, offset),
{
    vstd::arithmetic::div_mod::lemma_mod_add_multiples_vanish(offset, h.len() as int);
}

} // verus!
