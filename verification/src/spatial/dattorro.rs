use vstd::prelude::*;

use crate::spatial::reverb::{max_predelay_samples, scale_delays, scaled_delay_usize};

verus! {

/// The sample `offset` writes behind the write head of a delay line whose
/// contents, oldest first, are `h`: offset 1 is the newest sample, offset
/// `h.len()` (and offset 0) the oldest; offsets wrap modulo the length.
pub open spec fn tap<T>(h: Seq<T>, offset: int) -> T
    recommends
        h.len() > 0,
{
    h[(h.len() - offset % (h.len() as int)) % (h.len() as int)]
}

/// Contents after writing `x`: the oldest sample drops out, `x` is the newest.
pub open spec fn shifted<T>(h: Seq<T>, x: T) -> Seq<T> {
    h.drop_first().push(x)
}

/// Contents after writing all of `xs`, first to last.
pub open spec fn shifted_all<T>(h: Seq<T>, xs: Seq<T>) -> Seq<T>
    decreases xs.len(),
{
    if xs.len() == 0 {
        h
    } else {
        shifted(shifted_all(h, xs.drop_last()), xs.last())
    }
}

/// Fixed-length ring buffer of samples: the delay line of the reverb tanks,
/// also used for pre-delay, comb, allpass and lookahead buffers.
///
/// Its model is `history()`, the stored samples from oldest to newest.
pub struct DelayLine<T> {
    buffer: Vec<T>,
    write_index: usize,
}

impl<T> DelayLine<T> {
    #[verifier::type_invariant]
    spec fn inv(self) -> bool {
        &&& self.buffer@.len() >= 1
        &&& self.write_index < self.buffer@.len()
    }

    /// Stored samples, oldest first; the next write replaces the first.
    pub closed spec fn history(self) -> Seq<T> {
        Seq::new(
            self.buffer@.len(),
            |k: int| self.buffer@[(self.write_index as int + k) % (self.buffer@.len() as int)],
        )
    }

    /// Physical position of the write head, in `0..len`.
    pub closed spec fn write_pos(self) -> nat {
        self.write_index as nat
    }
}

impl<T: Copy> DelayLine<T> {

    /// A delay line of `size` samples (at least one), all equal to `fill`.
    pub fn new(size: usize, fill: T) -> (d: DelayLine<T>)
        ensures
            d.history() == Seq::new(if size == 0 { 1 } else { size as nat }, |k: int| fill),
            d.write_pos() == 0,
    {
        let n = if size == 0 { 1 } else { size };
        let mut buffer: Vec<T> = Vec::with_capacity(n);
        while buffer.len() < n
            invariant
                buffer@.len() <= n,
                forall|k: int| 0 <= k < buffer@.len() ==> buffer@[k] == fill,
            decreases n - buffer.len(),
        {
            buffer.push(fill);
        }
        let d = DelayLine { buffer, write_index: 0 };
        assert(d.history() =~= Seq::new(n as nat, |k: int| fill));
        d
    }

    /// Number of samples held (the full delay length).
    pub fn len(&self) -> (n: usize)
        ensures
            n == self.history().len(),
            n >= 1,
    {
        proof {
            use_type_invariant(self);
        }
        self.buffer.len()
    }

    /// Write a sample, advancing the write head.
    pub fn write(&mut self, input: T)
        ensures
            old(self).history().len() >= 1,
            final(self).history().len() == old(self).history().len(),
            final(self).history() == shifted(old(self).history(), input),
            final(self).write_pos() == (old(self).write_pos() + 1) % old(self).history().len(),
        no_unwind
    {
        proof {
            use_type_invariant(&*self);
        }
        let ghost h = self.history();
        let w = self.write_index;
        let len = self.buffer.len();
        self.buffer[w] = input;
        let next = if w + 1 >= len { 0 } else { w + 1 };
        self.write_index = next;
        proof {
            let n = self.buffer@.len() as int;
            assert forall|k: int| 0 <= k < n implies #[trigger] self.history()[k] == shifted(
                h,
                input,
            )[k] by {
                if k < n - 1 {
                    assert((next as int + k) % n == (w as int + k + 1) % n) by {
                        if w + 1 >= n {
                            assert(next == 0);
                        }
                        lemma_mod_shift(w as int + 1, next as int, k, n);
                    }
                    assert((w as int + k + 1) % n != w as int) by {
                        lemma_mod_other(w as int, k + 1, n);
                    }
                } else {
                    lemma_mod_back(w as int, next as int, n);
                }
            }
            assert(self.history() =~= shifted(h, input));
            if w + 1 >= n {
                vstd::arithmetic::div_mod::lemma_mod_self_0(n);
            } else {
                vstd::arithmetic::div_mod::lemma_small_mod((w + 1) as nat, n as nat);
            }
        }
    }

    /// Write a sample and return the oldest one, which it replaces.
    pub fn process(&mut self, input: T) -> (out: T)
        ensures
            old(self).history().len() >= 1,
            final(self).history().len() == old(self).history().len(),
            out == old(self).history()[0],
            out == tap(old(self).history(), 0),
            final(self).history() == shifted(old(self).history(), input),
            final(self).write_pos() == (old(self).write_pos() + 1) % old(self).history().len(),
    {
        proof {
            use_type_invariant(&*self);
            vstd::arithmetic::div_mod::lemma_mod_self_0(self.buffer@.len() as int);
        }
        let out = self.read_at(0);
        self.write(input);
        out
    }

    /// Read the sample `offset` writes behind the write head (offset wraps
    /// modulo the length; offset 0 is the oldest sample).
    pub fn read_at(&self, offset: usize) -> (out: T)
        ensures
            self.history().len() >= 1,
            out == tap(self.history(), offset as int),
    {
        proof {
            use_type_invariant(self);
        }
        let len = self.buffer.len();
        let off = offset % len;
        let pos = if self.write_index >= off {
            self.write_index - off
        } else {
            len - (off - self.write_index)
        };
        proof {
            let n = len as int;
            let k = (n - off) % n;
            assert((self.write_index as int + k) % n == pos) by {
                lemma_tap_position(self.write_index as int, off as int, n);
            }
        }
        self.buffer[pos]
    }

    /// Physical write position (where the next sample goes).
    pub fn write_position(&self) -> (p: usize)
        ensures
            p == self.write_pos(),
            p < self.history().len(),
    {
        proof {
            use_type_invariant(self);
        }
        self.write_index
    }

    /// Read the sample at physical position `pos` of the buffer.
    pub fn read_position(&self, pos: usize) -> (out: T)
        requires
            pos < self.history().len(),
        ensures
            out == self.history()[(pos as int - self.write_pos() as int + self.history().len())
                % (self.history().len() as int)],
    {
        proof {
            use_type_invariant(self);
            let n = self.buffer@.len() as int;
            let k = (pos as int - self.write_index as int + n) % n;
            lemma_mod_inverse(self.write_index as int, pos as int, n);
            assert((self.write_index as int + k) % n == pos);
        }
        self.buffer[pos]
    }

    /// Overwrite every sample with `fill` and move the write head to 0.
    pub fn clear(&mut self, fill: T)
        ensures
            final(self).history() == Seq::new(old(self).history().len(), |k: int| fill),
            final(self).write_pos() == 0,
        no_unwind
    {
        proof {
            use_type_invariant(&*self);
        }
        let n = self.buffer.len();
        let mut i: usize = 0;
        while i < n
            invariant
                n == self.buffer@.len(),
                n >= 1,
                self.write_index < n,
                i <= n,
                forall|k: int| 0 <= k < i ==> self.buffer@[k] == fill,
            decreases n - i,
        {
            self.buffer[i] = fill;
            i = i + 1;
        }
        self.write_index = 0;
        assert(self.history() =~= Seq::new(n as nat, |k: int| fill));
    }
}

/// Pre-delay ring buffer: each call reads the sample `delay` writes back,
/// then stores the new input.
pub struct PreDelay<T> {
    line: DelayLine<T>,
    delay_samples: usize,
}

impl<T> PreDelay<T> {
    #[verifier::type_invariant]
    spec fn inv(self) -> bool {
        self.delay_samples < self.line.history().len()
    }

    /// Stored samples, oldest first.
    pub closed spec fn history(self) -> Seq<T> {
        self.line.history()
    }

    /// Current delay in samples (always below the buffer length).
    pub closed spec fn delay(self) -> nat {
        self.delay_samples as nat
    }
}

impl<T: Copy> PreDelay<T> {
    /// A pre-delay buffer of `max_samples` samples (at least one), all equal
    /// to `fill`, with no delay set.
    pub fn new(max_samples: usize, fill: T) -> (p: PreDelay<T>)
        ensures
            p.history() == Seq::new(if max_samples == 0 { 1 } else { max_samples as nat }, |k: int| fill),
            p.delay() == 0,
    {
        let line = DelayLine::new(max_samples, fill);
        proof {
            use_type_invariant(&line);
        }
        PreDelay { line, delay_samples: 0 }
    }

    /// Set the delay, capped at one less than the buffer length.
    pub fn set_delay(&mut self, samples: usize)
        ensures
            final(self).history() == old(self).history(),
            samples < old(self).history().len() ==> final(self).delay() == samples,
            samples >= old(self).history().len() ==> final(self).delay() == old(self).history().len() - 1,
    {
        proof {
            use_type_invariant(&*self);
        }
        let max = self.line.len() - 1;
        self.delay_samples = if samples < max { samples } else { max };
    }

    /// Current delay in samples.
    pub fn delay_samples(&self) -> (d: usize)
        ensures
            d == self.delay(),
            d < self.history().len(),
    {
        proof {
            use_type_invariant(self);
        }
        self.delay_samples
    }

    /// Read the sample `delay` writes back (the oldest one when the delay is
    /// 0), then store `input`.
    pub fn process(&mut self, input: T) -> (out: T)
        ensures
            old(self).history().len() >= 1,
            old(self).delay() < old(self).history().len(),
            final(self).history().len() == old(self).history().len(),
            out == tap(old(self).history(), old(self).delay() as int),
            final(self).history() == shifted(old(self).history(), input),
            final(self).delay() == old(self).delay(),
    {
        proof {
            use_type_invariant(&*self);
        }
        let out = self.line.read_at(self.delay_samples);
        self.line.write(input);
        out
    }

    /// Overwrite every sample with `fill`; the delay setting is kept.
    pub fn clear(&mut self, fill: T)
        ensures
            final(self).history() == Seq::new(old(self).history().len(), |k: int| fill),
            final(self).delay() == old(self).delay(),
    {
        proof {
            use_type_invariant(&*self);
        }
        self.line.clear(fill);
    }
}

/// Scale a delay length from 44100 Hz to the target sample rate, to the
/// nearest sample (halves up, saturating at `usize::MAX`).
pub fn scale_delay(base: usize, sample_rate: u32) -> (n: usize)
    ensures
        n == scaled_delay_usize(base as nat, sample_rate as nat),
{
    crate::spatial::reverb::scale_delay(base, sample_rate)
}

/// Writing shifts every tap back by one: right after writing `x`, tap 1 reads
/// `x`, and tap `k + 1` reads what tap `k` read before the write.
pub proof fn lemma_tap_after_write<T>(h: Seq<T>, x: T, k: int)
    requires
        h.len() >= 1,
    ensures
        tap(shifted(h, x), 1) == x,
        1 <= k < h.len() ==> tap(shifted(h, x), k + 1) == tap(h, k),
{
    let n = h.len() as int;
    let s = shifted(h, x);
    assert(s.len() == n);
    vstd::arithmetic::div_mod::lemma_small_mod((n - 1) as nat, n as nat);
    if n > 1 {
        vstd::arithmetic::div_mod::lemma_small_mod(1, n as nat);
    } else {
        vstd::arithmetic::div_mod::lemma_mod_self_0(n);
    }
    if 1 <= k < n {
        vstd::arithmetic::div_mod::lemma_small_mod(k as nat, n as nat);
        vstd::arithmetic::div_mod::lemma_small_mod((n - k) as nat, n as nat);
        if k + 1 < n {
            vstd::arithmetic::div_mod::lemma_small_mod((k + 1) as nat, n as nat);
            vstd::arithmetic::div_mod::lemma_small_mod((n - k - 1) as nat, n as nat);
        } else {
            vstd::arithmetic::div_mod::lemma_mod_self_0(n);
        }
    }
}

/// A delay line delays by exactly its tap distance: a sample written now is
/// what tap `d` reads after `d - 1` further writes, for every `d` from 1 to
/// the length of the line.
pub proof fn lemma_tap_reads_back_write<T>(h: Seq<T>, x: T, later: Seq<T>)
    requires
        h.len() >= 1,
        later.len() + 1 <= h.len(),
    ensures
        tap(shifted_all(shifted(h, x), later), later.len() as int + 1) == x,
        shifted_all(shifted(h, x), later).len() == h.len(),
    decreases later.len(),
{
    if later.len() == 0 {
        lemma_tap_after_write(h, x, 1);
    } else {
        let prefix = later.drop_last();
        lemma_tap_reads_back_write(h, x, prefix);
        let before = shifted_all(shifted(h, x), prefix);
        lemma_tap_after_write(before, later.last(), prefix.len() as int + 1);
    }
}

/// Index arithmetic of one ring-buffer write at physical position `w` of `n`
/// slots, the head moving on to `next`: logical slot `k` after the write is
/// logical slot `k + 1` before it, and the last slot is the written one.
pub proof fn lemma_ring_step(w: int, next: int, k: int, n: int)
    requires
        n > 0,
        0 <= w < n,
        next == if w + 1 >= n { 0 } else { w + 1 },
        0 <= k < n,
    ensures
        k < n - 1 ==> (next + k) % n == (w + k + 1) % n && (w + k + 1) % n != w,
        k == n - 1 ==> (next + k) % n == w,
{
    if k < n - 1 {
        lemma_mod_shift(w + 1, next, k, n);
        lemma_mod_other(w, k + 1, n);
    } else {
        lemma_mod_back(w, next, n);
    }
}

proof fn lemma_mod_shift(a: int, b: int, k: int, n: int)
    requires
        n > 0,
        0 <= a <= n,
        b == if a == n { 0 } else { a },
        0 <= k < n,
    ensures
        (b + k) % n == (a + k) % n,
{
    if a == n {
        vstd::arithmetic::div_mod::lemma_mod_add_multiples_vanish(k, n);
    }
}

proof fn lemma_mod_other(w: int, j: int, n: int)
    requires
        n > 0,
        0 <= w < n,
        1 <= j < n,
    ensures
        (w + j) % n != w,
{
    if w + j < n {
        vstd::arithmetic::div_mod::lemma_small_mod((w + j) as nat, n as nat);
    } else {
        vstd::arithmetic::div_mod::lemma_mod_sub_multiples_vanish(w + j, n);
        vstd::arithmetic::div_mod::lemma_small_mod((w + j - n) as nat, n as nat);
    }
}

proof fn lemma_mod_back(w: int, next: int, n: int)
    requires
        n > 0,
        0 <= w < n,
        next == if w + 1 >= n { 0 } else { w + 1 },
    ensures
        (next + (n - 1)) % n == w,
{
    if w + 1 >= n {
        vstd::arithmetic::div_mod::lemma_small_mod((n - 1) as nat, n as nat);
    } else {
        vstd::arithmetic::div_mod::lemma_mod_sub_multiples_vanish(w + n, n);
        vstd::arithmetic::div_mod::lemma_small_mod(w as nat, n as nat);
    }
}

proof fn lemma_tap_position(w: int, off: int, n: int)
    requires
        n > 0,
        0 <= w < n,
        0 <= off < n,
    ensures
        (w + (n - off) % n) % n == if w >= off { w - off } else { n - (off - w) },
{
    if off == 0 {
        vstd::arithmetic::div_mod::lemma_mod_self_0(n);
        vstd::arithmetic::div_mod::lemma_small_mod(w as nat, n as nat);
    } else {
        vstd::arithmetic::div_mod::lemma_small_mod((n - off) as nat, n as nat);
        if w >= off {
            vstd::arithmetic::div_mod::lemma_mod_sub_multiples_vanish(w + n - off, n);
            vstd::arithmetic::div_mod::lemma_small_mod((w - off) as nat, n as nat);
        } else {
            vstd::arithmetic::div_mod::lemma_small_mod((w + n - off) as nat, n as nat);
        }
    }
}

proof fn lemma_mod_inverse(w: int, p: int, n: int)
    requires
        n > 0,
        0 <= w < n,
        0 <= p < n,
    ensures
        (w + (p - w + n) % n) % n == p,
{
    if p >= w {
        vstd::arithmetic::div_mod::lemma_mod_sub_multiples_vanish(p - w + n, n);
        vstd::arithmetic::div_mod::lemma_small_mod((p - w) as nat, n as nat);
        vstd::arithmetic::div_mod::lemma_small_mod(p as nat, n as nat);
    } else {
        vstd::arithmetic::div_mod::lemma_small_mod((p - w + n) as nat, n as nat);
        vstd::arithmetic::div_mod::lemma_mod_sub_multiples_vanish(p + n, n);
        vstd::arithmetic::div_mod::lemma_small_mod(p as nat, n as nat);
    }
}

/// A line of `n` samples echoes its input exactly `n` writes later: after
/// writing `x` and `n - 1` further samples, `x` is the oldest sample, the one
/// the next `process` call returns.
pub proof fn lemma_oldest_is_write_after_length<T>(h: Seq<T>, x: T, later: Seq<T>)
    requires
        h.len() >= 1,
        later.len() + 1 == h.len(),
    ensures
        shifted_all(shifted(h, x), later)[0] == x,
{
    lemma_tap_reads_back_write(h, x, later);
    let n = h.len() as int;
    vstd::arithmetic::div_mod::lemma_mod_self_0(n);
}

/// Lengths of the four input diffusion allpasses at 44100 Hz.
pub const INPUT_DIFFUSION_LENGTHS: [usize; 4] = [142, 107, 379, 277];

/// Left tank at 44100 Hz: modulated allpass, first delay, allpass, second
/// delay.
pub const LEFT_TANK_LENGTHS: [usize; 4] = [672, 4453, 1800, 3720];

/// Right tank at 44100 Hz, in the order of `LEFT_TANK_LENGTHS`.
pub const RIGHT_TANK_LENGTHS: [usize; 4] = [908, 4217, 2656, 3163];

/// Left output taps at 44100 Hz: two from the left first delay, then the left
/// allpass, the left second delay, the right first delay, the right allpass
/// and the right second delay.
pub const LEFT_OUTPUT_TAPS: [usize; 7] = [266, 2974, 1913, 1996, 1990, 187, 1066];

/// Right output taps at 44100 Hz: two from the right first delay, then the
/// right allpass, the right second delay, the left first delay, the left
/// allpass and the left second delay.
pub const RIGHT_OUTPUT_TAPS: [usize; 7] = [353, 3627, 1228, 2111, 2673, 335, 121];

/// Every buffer length and output tap of the plate reverb at one sample rate.
pub struct DattorroLayout {
    /// Size of the pre-delay buffer: 200 ms rounded up, plus one sample.
    pub max_predelay: usize,
    pub input_diffusion: Vec<usize>,
    pub left_tank: Vec<usize>,
    pub right_tank: Vec<usize>,
    pub left_taps: Vec<usize>,
    pub right_taps: Vec<usize>,
}

/// Each entry of `scaled` is the entry of `table` scaled to `sample_rate`.
pub open spec fn scaled_table(scaled: Seq<usize>, table: Seq<usize>, sample_rate: nat) -> bool {
    &&& scaled.len() == table.len()
    &&& forall|i: int|
        0 <= i < table.len() ==> scaled[i] == scaled_delay_usize(
            #[trigger] table[i] as nat,
            sample_rate,
        )
}

impl DattorroLayout {
    /// Scale every length and tap from 44100 Hz to `sample_rate`.
    pub fn new(sample_rate: u32) -> (l: DattorroLayout)
        ensures
            l.max_predelay == (sample_rate as nat + 4) / 5 + 1,
            scaled_table(l.input_diffusion@, INPUT_DIFFUSION_LENGTHS@, sample_rate as nat),
            scaled_table(l.left_tank@, LEFT_TANK_LENGTHS@, sample_rate as nat),
            scaled_table(l.right_tank@, RIGHT_TANK_LENGTHS@, sample_rate as nat),
            scaled_table(l.left_taps@, LEFT_OUTPUT_TAPS@, sample_rate as nat),
            scaled_table(l.right_taps@, RIGHT_OUTPUT_TAPS@, sample_rate as nat),
    {
        let max_predelay = max_predelay_samples(sample_rate) + 1;
        let input_diffusion = scale_delays(&INPUT_DIFFUSION_LENGTHS, 0, sample_rate);
        let left_tank = scale_delays(&LEFT_TANK_LENGTHS, 0, sample_rate);
        let right_tank = scale_delays(&RIGHT_TANK_LENGTHS, 0, sample_rate);
        let left_taps = scale_delays(&LEFT_OUTPUT_TAPS, 0, sample_rate);
        let right_taps = scale_delays(&RIGHT_OUTPUT_TAPS, 0, sample_rate);
        DattorroLayout { max_predelay, input_diffusion, left_tank, right_tank, left_taps, right_taps }
    }
}

} // verus!
