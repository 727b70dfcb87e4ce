use vstd::prelude::*;

use crate::spatial::dattorro::shifted;
use vstd::arithmetic::power2::pow2;

verus! {

/// Half-order of every half-band stage.
pub const HALF_ORDER: usize = 6;

/// Taps of every half-band stage: `4 * HALF_ORDER + 1`.
pub const FILTER_LEN: usize = 25;

/// Latency, at the input rate, of the first `n` cascaded 2x stages: stage
/// `s` runs an up and a down filter of group delay `(FILTER_LEN - 1) / 2`
/// samples each at `2^(s + 1)` times the input rate.
pub open spec fn latency_of_stages(n: nat) -> nat
    decreases n,
{
    if n == 0 {
        0
    } else {
        latency_of_stages((n - 1) as nat) + (2 * ((FILTER_LEN - 1) / 2) as nat) / pow2(n)
    }
}

/// Distance between two integers.
pub open spec fn distance(a: int, b: int) -> int {
    if a >= b {
        a - b
    } else {
        b - a
    }
}

/// Exponent of the smallest power of two at least `requested` (0 for a
/// request of 0 or 1).
pub open spec fn ceil_log2(requested: nat) -> nat
    decreases requested,
{
    if requested <= 1 {
        0
    } else {
        ceil_log2(((requested + 1) / 2) as nat) + 1
    }
}

/// Exponent of the power of two nearest to a request, a tie going to the
/// larger power: the smallest power at least the request, or the one below
/// it where that one is strictly closer.
pub open spec fn nearest_stages(requested: nat) -> nat {
    let k = ceil_log2(requested);
    if k > 0 && requested - pow2((k - 1) as nat) < pow2(k) - requested {
        (k - 1) as nat
    } else {
        k
    }
}

/// `2^(k-1) < requested <= 2^k` for `k = ceil_log2(requested)`, the lower
/// bound where `k > 0`.
pub proof fn lemma_ceil_log2_bounds(requested: nat)
    ensures
        requested <= pow2(ceil_log2(requested)),
        ceil_log2(requested) > 0 ==> pow2((ceil_log2(requested) - 1) as nat) < requested,
        ceil_log2(requested) > 0 <==> requested >= 2,
    decreases requested,
{
    vstd::arithmetic::power2::lemma2_to64();
    if requested >= 2 {
        let m = ((requested + 1) / 2) as nat;
        lemma_ceil_log2_bounds(m);
        let km = ceil_log2(m);
        vstd::arithmetic::power2::lemma_pow2_unfold(km + 1);
        if km > 0 {
            vstd::arithmetic::power2::lemma_pow2_unfold(km);
        }
    }
}

/// `2^i < 2^j` where `i < j`, and `2^i <= 2^j` where `i <= j`.
proof fn lemma_pow2_monotone(i: nat, j: nat)
    ensures
        i < j ==> pow2(i) < pow2(j),
        i <= j ==> pow2(i) <= pow2(j),
{
    if i < j {
        vstd::arithmetic::power2::lemma_pow2_strictly_increases(i, j);
    }
}

/// The plan's factor is the power of two nearest to the request: no power
/// of two is closer, and one as close is not larger.
pub proof fn lemma_plan_factor_is_nearest(requested: nat)
    ensures
        forall|k: nat|
            distance(pow2(nearest_stages(requested)) as int, requested as int) <= distance(
                #[trigger] pow2(k) as int,
                requested as int,
            ),
        forall|k: nat|
            distance(pow2(nearest_stages(requested)) as int, requested as int) == distance(
                #[trigger] pow2(k) as int,
                requested as int,
            ) ==> pow2(k) <= pow2(nearest_stages(requested)),
{
    lemma_ceil_log2_bounds(requested);
    let c = ceil_log2(requested);
    let n = nearest_stages(requested);
    vstd::arithmetic::power2::lemma2_to64();
    assert forall|k: nat|
        distance(pow2(n) as int, requested as int) <= distance(#[trigger] pow2(k) as int, requested as int)
            && (distance(pow2(n) as int, requested as int) == distance(pow2(k) as int, requested as int)
            ==> pow2(k) <= pow2(n)) by {
        lemma_pow2_monotone(k, c);
        lemma_pow2_monotone(c, k);
        if c > 0 {
            let lo = pow2((c - 1) as nat);
            vstd::arithmetic::power2::lemma_pow2_unfold(c);
            lemma_pow2_monotone(k, (c - 1) as nat);
            lemma_pow2_monotone((c - 1) as nat, k);
            lemma_pow2_monotone(k, c + 1);
            lemma_pow2_monotone(c + 1, k);
            vstd::arithmetic::power2::lemma_pow2_unfold(c + 1);
            assert(lo < requested <= pow2(c));
        } else {
            vstd::arithmetic::power2::lemma_pow2_pos(k);
            lemma_pow2_monotone(0, k);
        }
    }
}

/// Structure of the oversampler: a power-of-two factor realised by a cascade
/// of 2x half-band stages, and the latency that cascade introduces.
pub struct OversamplingPlan {
    factor: usize,
    num_stages: usize,
}

impl OversamplingPlan {
    #[verifier::type_invariant]
    spec fn inv(self) -> bool {
        self.factor as nat == pow2(self.num_stages as nat)
    }

    /// Oversampling factor (a power of two, 1 for bypass).
    pub closed spec fn spec_factor(self) -> nat {
        self.factor as nat
    }

    /// Number of cascaded 2x stages: `spec_factor() == 2^stages()`.
    pub closed spec fn stages(self) -> nat {
        self.num_stages as nat
    }

    /// Plan for a requested factor: the power of two nearest to it (0 gives
    /// 1, a tie goes to the larger: 3 gives 4, 5 gives 4, 6 gives 8, 12
    /// gives 16), with one 2x stage per doubling. Factors in use are 1, 2, 4
    /// and 8. A request above `usize::MAX / 2 + 1` has no power of two at
    /// or above it in a `usize`.
    pub fn new(factor: usize) -> (p: OversamplingPlan)
        requires
            factor <= usize::MAX / 2 + 1,
        ensures
            p.stages() == nearest_stages(factor as nat),
            p.spec_factor() == pow2(p.stages()),
    {
        proof {
            vstd::arithmetic::power2::lemma2_to64();
        }
        let mut pow: usize = 1;
        let mut k: usize = 0;
        while pow < factor
            invariant
                pow as nat == pow2(k as nat),
                pow >= 1,
                k > 0 ==> pow2((k - 1) as nat) < factor,
                factor <= usize::MAX / 2 + 1,
                k <= 64,
            decreases 2 * factor - pow,
        {
            assert(pow * 2 <= usize::MAX);
            proof {
                vstd::arithmetic::power2::lemma2_to64();
                vstd::arithmetic::power2::lemma_pow2_unfold((k + 1) as nat);
                assert(pow2((k + 1) as nat) <= usize::MAX);
                if k + 1 > 64 {
                    lemma_pow2_monotone(64, (k + 1) as nat);
                }
            }
            pow = pow * 2;
            k = k + 1;
        }
        proof {
            vstd::arithmetic::power2::lemma2_to64();
            lemma_ceil_log2_bounds(factor as nat);
            let c = ceil_log2(factor as nat);
            assert(factor <= pow2(k as nat));
            if c == 0 {
                // factor <= 1, so the loop never ran.
                if k > 0 {
                    vstd::arithmetic::power2::lemma_pow2_pos((k - 1) as nat);
                }
            } else {
                if k < c {
                    lemma_pow2_monotone(k as nat, (c - 1) as nat);
                }
                if k > c {
                    lemma_pow2_monotone(c, (k - 1) as nat);
                }
            }
            assert(k == c);
            if k > 0 {
                vstd::arithmetic::power2::lemma_pow2_unfold(k as nat);
            }
        }
        if k > 0 && factor - pow / 2 < pow - factor {
            OversamplingPlan { factor: pow / 2, num_stages: k - 1 }
        } else {
            OversamplingPlan { factor: pow, num_stages: k }
        }
    }

    /// The oversampling factor.
    pub fn factor(&self) -> (f: usize)
        ensures
            f == self.spec_factor(),
            f >= 1,
    {
        proof {
            use_type_invariant(self);
            vstd::arithmetic::power2::lemma_pow2_pos(self.num_stages as nat);
        }
        self.factor
    }

    /// Number of cascaded 2x stages.
    pub fn num_stages(&self) -> (n: usize)
        ensures
            n == self.stages(),
    {
        self.num_stages
    }

    /// Total latency in samples at the input rate (0 for bypass).
    pub fn latency(&self) -> (l: usize)
        ensures
            l == latency_of_stages(self.stages()),
    {
        proof {
            use_type_invariant(self);
            vstd::arithmetic::power2::lemma2_to64();
            if self.num_stages > 64 {
                vstd::arithmetic::power2::lemma_pow2_strictly_increases(64, self.num_stages as nat);
            }
        }
        let k = self.num_stages;
        let mut total: usize = 0;
        let mut s: usize = 0;
        let mut d: usize = 2;
        while s < k
            invariant
                s <= k,
                s < k ==> d as nat == pow2((s + 1) as nat),
                pow2(k as nat) <= usize::MAX,
                total == latency_of_stages(s as nat),
                total <= 24 * s,
                k == self.num_stages,
                k <= 64,
            decreases k - s,
        {
            proof {
                vstd::arithmetic::power2::lemma_pow2_pos((s + 1) as nat);
                assert(24nat / (d as nat) <= 24) by (nonlinear_arith)
                    requires
                        d >= 1,
                ;
                assert(k <= pow2(k as nat)) by {
                    lemma_exponent_below_power(k as nat);
                }
            }
            total = total + 24 / d;
            s = s + 1;
            if s < k {
                proof {
                    vstd::arithmetic::power2::lemma_pow2_unfold((s + 1) as nat);
                    if s + 1 < k {
                        vstd::arithmetic::power2::lemma_pow2_strictly_increases((s + 1) as nat, k as nat);
                    }
                }
                d = d * 2;
            }
        }
        total
    }

    /// Length of a block of `in_len` input samples at the oversampled rate.
    pub fn oversampled_len(&self, in_len: usize) -> (n: usize)
        requires
            in_len * self.spec_factor() <= usize::MAX,
        ensures
            n == in_len * self.spec_factor(),
    {
        in_len * self.factor
    }
}

/// `n <= 2^n`.
proof fn lemma_exponent_below_power(n: nat)
    ensures
        n <= pow2(n),
    decreases n,
{
    vstd::arithmetic::power2::lemma_pow2_pos(n);
    if n > 0 {
        lemma_exponent_below_power((n - 1) as nat);
        vstd::arithmetic::power2::lemma_pow2_unfold(n);
    }
}

/// Ring buffer of a half-band stage whose storage is doubled: position
/// `i + len` mirrors position `i`, so the `len` most recent samples are always
/// one contiguous slice, oldest first, starting at the write position.
pub struct MirroredDelay<T> {
    delay: Vec<T>,
    write_pos: usize,
    filter_len: usize,
}

impl<T> MirroredDelay<T> {
    /// Internal consistency: doubled storage whose upper half mirrors the
    /// lower half, and a write position inside the lower half.
    pub closed spec fn wf(self) -> bool {
        &&& self.filter_len >= 1
        &&& self.delay@.len() == 2 * self.filter_len
        &&& self.write_pos < self.filter_len
        &&& forall|i: int|
            0 <= i < self.filter_len ==> #[trigger] self.delay@[i] == self.delay@[i
                + self.filter_len]
    }

    /// Stored samples, oldest first.
    pub closed spec fn history(self) -> Seq<T> {
        Seq::new(
            self.filter_len as nat,
            |k: int| self.delay@[(self.write_pos as int + k) % (self.filter_len as int)],
        )
    }
}

impl<T: Copy> MirroredDelay<T> {
    /// A delay of `filter_len` samples (at least one), all equal to `fill`.
    pub fn new(filter_len: usize, fill: T) -> (d: MirroredDelay<T>)
        requires
            1 <= filter_len,
            2 * filter_len <= usize::MAX,
        ensures
            d.wf(),
            d.history() == Seq::new(filter_len as nat, |k: int| fill),
    {
        let n = 2 * filter_len;
        let mut delay: Vec<T> = Vec::with_capacity(n);
        while delay.len() < n
            invariant
                delay@.len() <= n,
                forall|k: int| 0 <= k < delay@.len() ==> delay@[k] == fill,
            decreases n - delay.len(),
        {
            delay.push(fill);
        }
        let d = MirroredDelay { delay, write_pos: 0, filter_len };
        assert(d.history() =~= Seq::new(filter_len as nat, |k: int| fill));
        d
    }

    /// Number of samples held (the filter length).
    pub fn len(&self) -> (n: usize)
        requires
            self.wf(),
        ensures
            n == self.history().len(),
            n >= 1,
    {
        self.filter_len
    }

    /// Push a sample into the delay line, writing both the canonical and the
    /// mirror position.
    pub fn push(&mut self, sample: T)
        requires
            old(self).wf(),
        ensures
            final(self).wf(),
            final(self).history() == shifted(old(self).history(), sample),
    {
        let ghost h = self.history();
        let n = self.filter_len;
        let w = self.write_pos;
        let total = self.delay.len();
        assert(w + n < total);
        self.delay[w] = sample;
        self.delay[w + n] = sample;
        let next = if w + 1 >= n { 0 } else { w + 1 };
        self.write_pos = next;
        proof {
            let ni = n as int;
            assert forall|i: int| 0 <= i < ni implies #[trigger] self.delay@[i] == self.delay@[i
                + ni] by {
                if i != w {
                    assert(self.delay@[i] == old(self).delay@[i]);
                    assert(self.delay@[i + ni] == old(self).delay@[i + ni]);
                }
            }
            assert forall|k: int| 0 <= k < ni implies #[trigger] self.history()[k] == shifted(
                h,
                sample,
            )[k] by {
                crate::spatial::dattorro::lemma_ring_step(w as int, next as int, k, ni);
            }
            assert(self.history() =~= shifted(h, sample));
        }
    }

    /// The stored samples as one contiguous slice, oldest first.
    pub fn window(&self) -> (s: &[T])
        requires
            self.wf(),
        ensures
            s@ == self.history(),
    {
        let w = self.write_pos;
        let n = self.filter_len;
        let total = self.delay.len();
        assert(w + n < total);
        let s = vstd::slice::slice_subrange(self.delay.as_slice(), w, w + n);
        proof {
            let ni = n as int;
            assert forall|k: int| 0 <= k < ni implies #[trigger] s@[k] == self.history()[k] by {
                if w + k < ni {
                    vstd::arithmetic::div_mod::lemma_small_mod((w + k) as nat, ni as nat);
                } else {
                    vstd::arithmetic::div_mod::lemma_mod_sub_multiples_vanish(w + k - ni + ni, ni);
                    vstd::arithmetic::div_mod::lemma_small_mod((w + k - ni) as nat, ni as nat);
                    assert(self.delay@[w + k - ni] == self.delay@[w + k - ni + ni]);
                }
            }
            assert(s@ =~= self.history());
        }
        s
    }

    /// Overwrite every sample with `fill` and reset the write position.
    pub fn reset(&mut self, fill: T)
        requires
            old(self).wf(),
        ensures
            final(self).wf(),
            final(self).history() == Seq::new(old(self).history().len(), |k: int| fill),
    {
        let n = self.delay.len();
        let mut i: usize = 0;
        while i < n
            invariant
                n == self.delay@.len(),
                n == 2 * self.filter_len,
                self.filter_len >= 1,
                self.write_pos < self.filter_len,
                i <= n,
                forall|k: int| 0 <= k < i ==> self.delay@[k] == fill,
            decreases n - i,
        {
            self.delay[i] = fill;
            i = i + 1;
        }
        self.write_pos = 0;
        assert(self.history() =~= Seq::new(self.filter_len as nat, |k: int| fill));
        assert forall|k: int| 0 <= k < self.filter_len implies #[trigger] self.delay@[k]
            == self.delay@[k + self.filter_len] by {}
    }
}

} // verus!
