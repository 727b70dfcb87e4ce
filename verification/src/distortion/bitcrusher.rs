use vstd::prelude::*;

use crate::modulation::lfo::xorshift64_step;
use vstd::arithmetic::power2::pow2;

verus! {

/// Seed used in place of a zero seed (zero is a fixed point of xorshift64).
pub const FALLBACK_SEED: u64 = 0x1234_5678_9ABC_DEF0;

/// xorshift64 pseudo-random generator driving dither and clock jitter —
/// deterministic, fast, no allocation. Its state is never zero.
#[derive(Debug)]
pub struct Xorshift64 {
    state: u64,
}

impl Xorshift64 {
    #[verifier::type_invariant]
    spec fn inv(self) -> bool {
        self.state != 0
    }

    /// Current generator state.
    pub closed spec fn state(self) -> u64 {
        self.state
    }

    /// A generator seeded with `seed`, or with `FALLBACK_SEED` when `seed` is 0.
    pub fn new(seed: u64) -> (g: Xorshift64)
        ensures
            g.state() == if seed == 0 { FALLBACK_SEED } else { seed },
            g.state() != 0,
    {
        Xorshift64 { state: if seed == 0 { FALLBACK_SEED } else { seed } }
    }

    /// Generate the next pseudo-random `u64`: the new state, never zero.
    pub fn next_u64(&mut self) -> (x: u64)
        ensures
            x == xorshift64_step(old(self).state()),
            final(self).state() == x,
            x != 0,
    {
        proof {
            use_type_invariant(&*self);
        }
        let x = crate::modulation::lfo::xorshift64(self.state);
        self.state = x;
        x
    }
}

/// Largest supported bit depth.
pub const MAX_BIT_DEPTH: u32 = 24;

/// Bit depth actually used for a (rounded) parameter value: clamped to 1..=24.
pub fn clamp_bit_depth(depth: u32) -> (d: u32)
    ensures
        1 <= d <= MAX_BIT_DEPTH,
        1 <= depth <= MAX_BIT_DEPTH ==> d == depth,
        depth < 1 ==> d == 1,
        depth > MAX_BIT_DEPTH ==> d == MAX_BIT_DEPTH,
{
    if depth < 1 {
        1
    } else if depth > MAX_BIT_DEPTH {
        MAX_BIT_DEPTH
    } else {
        depth
    }
}

/// Number of quantization steps per unit of amplitude at a bit depth:
/// `2^(depth - 1)` (one bit is the sign).
pub fn quantization_levels(bit_depth: u32) -> (levels: u64)
    requires
        1 <= bit_depth <= 64,
    ensures
        levels == pow2((bit_depth - 1) as nat),
{
    let shift = (bit_depth - 1) as u64;
    proof {
        vstd::bits::lemma_u64_pow2_no_overflow(shift as nat);
        vstd::bits::lemma_u64_shl_is_mul(1, shift);
    }
    1u64 << shift
}

} // verus!
