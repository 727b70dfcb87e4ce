use vstd::prelude::*;

use crate::modulation::lfo::xorshift64_step;

verus! {

/// Number of overlapping grains of the granular engine.
pub const GRAIN_COUNT: usize = 4;

/// xorshift64 generator for grain position jitter. Its state is never zero.
pub struct Xorshift64 {
    state: u64,
}

impl Xorshift64 {
    #[verifier::type_invariant]
    spec fn inv(self) -> bool {
        self.state != 0
    }

    /// Current generator state.
    pub closed spec fn state(self) -> u64 {
        self.state
    }

    /// A generator seeded with `seed`, or with 1 when `seed` is 0.
    pub fn new(seed: u64) -> (g: Xorshift64)
        ensures
            g.state() == if seed == 0 { 1 } else { seed },
    {
        Xorshift64 { state: if seed == 0 { 1 } else { seed } }
    }

    /// Advance the state by one xorshift64 step and return it (never zero).
    pub fn next_u64(&mut self) -> (x: u64)
        ensures
            x == xorshift64_step(old(self).state()),
            final(self).state() == x,
            x != 0,
    {
        proof {
            use_type_invariant(&*self);
        }
        let x = crate::modulation::lfo::xorshift64(self.state);
        self.state = x;
        x
    }
}

/// FFT size of the phase vocoder for its parameter index: 1024, 2048, or
/// 4096 for index 2 and above.
pub fn fft_size_from_index(index: u32) -> (n: usize)
    ensures
        n == if index == 0 { 1024usize } else if index == 1 { 2048usize } else { 4096usize },
{
    match index {
        0 => 1024,
        1 => 2048,
        _ => 4096,
    }
}

/// Hop size of the phase vocoder: a quarter of the FFT size (4x overlap).
pub fn hop_size(fft_size: usize) -> (h: usize)
    ensures
        h == fft_size / 4,
{
    fft_size / 4
}

/// Latency of the phase vocoder in samples: half the FFT size.
pub fn phase_vocoder_latency(fft_size: usize) -> (l: u32)
    requires
        fft_size / 2 <= u32::MAX,
    ensures
        l == fft_size / 2,
{
    (fft_size / 2) as u32
}

/// Interval between grain starts: the grain length divided among the grains,
/// at least one sample.
pub fn grain_interval(grain_length: usize) -> (i: usize)
    ensures
        i == if grain_length / GRAIN_COUNT >= 1 { grain_length / GRAIN_COUNT } else { 1 },
        i >= 1,
{
    let i = grain_length / GRAIN_COUNT;
    if i >= 1 { i } else { 1 }
}

/// Index of the first inactive grain, if any.
pub fn first_free_grain(active: &[bool; 4]) -> (slot: Option<usize>)
    ensures
        slot matches Some(i) ==> i < 4 && !active@[i as int] && forall|j: int|
            0 <= j < i ==> active@[j],
        slot is None ==> forall|j: int| 0 <= j < 4 ==> active@[j],
{
    let mut i: usize = 0;
    while i < 4
        invariant
            i <= 4,
            forall|j: int| 0 <= j < i ==> active@[j],
        decreases 4 - i,
    {
        if !active[i] {
            return Some(i);
        }
        i = i + 1;
    }
    None
}

/// Whether a new grain is scheduled at this sample: every `interval`-th
/// sample, starting with the first.
pub fn grain_due(sample_counter: usize, interval: usize) -> (due: bool)
    requires
        interval > 0,
    ensures
        due == (sample_counter % interval == 0),
{
    sample_counter % interval == 0
}

/// Position `offset` samples after `pos` in a ring of `len` slots.
pub fn ring_slot(pos: usize, offset: usize, len: usize) -> (slot: usize)
    requires
        len > 0,
    ensures
        slot as int == (pos as int + offset as int) % (len as int),
        slot < len,
{
    let a = pos % len;
    let b = offset % len;
    proof {
        vstd::arithmetic::div_mod::lemma_add_mod_noop(pos as int, offset as int, len as int);
    }
    if a >= len - b {
        proof {
            vstd::arithmetic::div_mod::lemma_mod_sub_multiples_vanish(a + b, len as int);
            vstd::arithmetic::div_mod::lemma_small_mod((a + b - len) as nat, len as nat);
        }
        a - (len - b)
    } else {
        proof {
            vstd::arithmetic::div_mod::lemma_small_mod((a + b) as nat, len as nat);
        }
        a + b
    }
}

/// Counts the input samples of the phase vocoder between analysis hops.
pub struct HopCounter {
    since: usize,
    hop: usize,
}

impl HopCounter {
    #[verifier::type_invariant]
    spec fn inv(self) -> bool {
        self.since == 0 || self.since < self.hop
    }

    /// Samples counted since the last hop.
    pub closed spec fn since(self) -> nat {
        self.since as nat
    }

    /// Samples per hop.
    pub closed spec fn hop(self) -> nat {
        self.hop as nat
    }

    /// A counter that has counted nothing yet.
    pub fn new(hop: usize) -> (c: HopCounter)
        ensures
            c.since() == 0,
            c.hop() == hop,
    {
        HopCounter { since: 0, hop }
    }

    /// Count one sample; a hop is due when `hop` samples have been counted,
    /// and the count starts again from zero.
    pub fn tick(&mut self) -> (due: bool)
        ensures
            due == (old(self).since() + 1 >= old(self).hop()),
            final(self).since() == if due { 0 } else { old(self).since() + 1 },
            final(self).hop() == old(self).hop(),
    {
        proof {
            use_type_invariant(&*self);
        }
        let s = self.since + 1;
        if s >= self.hop {
            self.since = 0;
            true
        } else {
            self.since = s;
            false
        }
    }

    /// Forget the samples counted so far.
    pub fn reset(&mut self)
        ensures
            final(self).since() == 0,
            final(self).hop() == old(self).hop(),
    {
        self.since = 0;
    }
}

} // verus!
