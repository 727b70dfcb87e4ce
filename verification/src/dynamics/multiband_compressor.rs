use vstd::prelude::*;

verus! {

/// Maximum number of bands.
pub const MAX_BANDS: usize = 6;

/// Number of crossover points between the bands.
pub const MAX_CROSSOVERS: usize = 5;

/// Number of parameters: three global, five crossovers, five per band.
pub const PARAM_COUNT: u32 = 38;

/// The per-band compressor controls, in the order of their parameter slots.
#[derive(Debug, Clone, Copy, PartialEq, Eq, Structural)]
pub enum BandControl {
    Threshold,
    Ratio,
    Attack,
    Release,
    Makeup,
}

impl BandControl {
    /// Slot of the control within its band's group of five parameters.
    pub open spec fn slot(self) -> nat {
        match self {
            BandControl::Threshold => 0,
            BandControl::Ratio => 1,
            BandControl::Attack => 2,
            BandControl::Release => 3,
            BandControl::Makeup => 4,
        }
    }
}

/// A parameter of the multiband compressor, as named by its parameter ID.
#[derive(Debug, Clone, Copy, PartialEq, Eq, Structural)]
pub enum MultibandParam {
    BandCount,
    OutputGain,
    Bypass,
    Crossover { index: usize },
    Band { band: usize, control: BandControl },
}

impl MultibandParam {
    /// Parameter ID: 0–2 global, `3 + index` for a crossover,
    /// `8 + band * 5 + slot` for a band control.
    pub open spec fn id(self) -> nat {
        match self {
            MultibandParam::BandCount => 0,
            MultibandParam::OutputGain => 1,
            MultibandParam::Bypass => 2,
            MultibandParam::Crossover { index } => 3 + index as nat,
            MultibandParam::Band { band, control } => 8 + band as nat * 5 + control.slot(),
        }
    }

    /// Crossover and band indices are in range.
    pub open spec fn is_valid(self) -> bool {
        match self {
            MultibandParam::Crossover { index } => index < MAX_CROSSOVERS,
            MultibandParam::Band { band, control } => band < MAX_BANDS,
            _ => true,
        }
    }

    /// Decode a parameter ID according to the layout of `id`; IDs from 38 on
    /// name nothing.
    pub fn from_id(id: u32) -> (p: Option<MultibandParam>)
        ensures
            p is Some <==> id < PARAM_COUNT,
            p matches Some(q) ==> q.is_valid() && q.id() == id,
    {
        if id == 0 {
            Some(MultibandParam::BandCount)
        } else if id == 1 {
            Some(MultibandParam::OutputGain)
        } else if id == 2 {
            Some(MultibandParam::Bypass)
        } else if id <= 7 {
            Some(MultibandParam::Crossover { index: (id - 3) as usize })
        } else if id <= 37 {
            let offset = id - 8;
            let band = (offset / 5) as usize;
            let slot = offset % 5;
            let control = if slot == 0 {
                BandControl::Threshold
            } else if slot == 1 {
                BandControl::Ratio
            } else if slot == 2 {
                BandControl::Attack
            } else if slot == 3 {
                BandControl::Release
            } else {
                BandControl::Makeup
            };
            Some(MultibandParam::Band { band, control })
        } else {
            None
        }
    }
}

/// The per-band layout: band `b`'s five controls take the consecutive IDs
/// from `8 + 5 * b`, in the order threshold, ratio, attack, release, makeup
/// gain; the crossovers take 3 to 7 and the global controls 0 to 2.
pub proof fn lemma_multiband_band_layout(b: usize)
    ensures
        (MultibandParam::Band { band: b, control: BandControl::Threshold }).id() == 8 + 5 * b,
        (MultibandParam::Band { band: b, control: BandControl::Ratio }).id() == 8 + 5 * b + 1,
        (MultibandParam::Band { band: b, control: BandControl::Attack }).id() == 8 + 5 * b + 2,
        (MultibandParam::Band { band: b, control: BandControl::Release }).id() == 8 + 5 * b + 3,
        (MultibandParam::Band { band: b, control: BandControl::Makeup }).id() == 8 + 5 * b + 4,
        (MultibandParam::Crossover { index: b }).id() == 3 + b,
        MultibandParam::BandCount.id() == 0,
        MultibandParam::OutputGain.id() == 1,
        MultibandParam::Bypass.id() == 2,
{
}

/// Distinct multiband parameters have distinct IDs, all below the parameter
/// count: the ID layout is a bijection onto `0..38`.
pub proof fn lemma_multiband_param_ids_distinct(p: MultibandParam, q: MultibandParam)
    ensures
        p.is_valid() ==> p.id() < PARAM_COUNT,
        p.is_valid() && q.is_valid() && p.id() == q.id() ==> p == q,
{
    if p.is_valid() {
        match p {
            MultibandParam::Band { band, control } => {
                assert(band as nat * 5 <= 25) by (nonlinear_arith)
                    requires
                        band < 6,
                ;
            },
            _ => {},
        }
    }
    if p.is_valid() && q.is_valid() && p.id() == q.id() {
        match (p, q) {
            (
                MultibandParam::Band { band: b1, control: c1 },
                MultibandParam::Band { band: b2, control: c2 },
            ) => {
                assert(b1 == b2 && c1.slot() == c2.slot()) by (nonlinear_arith)
                    requires
                        b1 as nat * 5 + c1.slot() == b2 as nat * 5 + c2.slot(),
                        c1.slot() < 5,
                        c2.slot() < 5,
                ;
            },
            _ => {},
        }
    }
}

/// Clamp a rounded band count into `1..=MAX_BANDS`.
pub fn clamp_band_count(rounded: usize) -> (n: usize)
    ensures
        n == if rounded < 1 { 1 } else if rounded > MAX_BANDS { MAX_BANDS } else { rounded },
{
    if rounded < 1 {
        1
    } else if rounded > MAX_BANDS {
        MAX_BANDS
    } else {
        rounded
    }
}

/// `a` lies below `b`: both are known and `a` is the smaller. An unknown key
/// (a frequency that is not a number) lies neither below nor above anything.
pub open spec fn below(a: Option<u64>, b: Option<u64>) -> bool {
    match (a, b) {
        (Some(x), Some(y)) => x < y,
        _ => false,
    }
}

/// Every key is known.
pub open spec fn all_known(s: Seq<Option<u64>>) -> bool {
    forall|i: int| 0 <= i < s.len() ==> #[trigger] s[i] is Some
}

/// Every key is known and at most every later one.
pub open spec fn ascending(s: Seq<Option<u64>>) -> bool {
    &&& all_known(s)
    &&& forall|i: int, j: int| 0 <= i <= j < s.len() ==> s[i]->0 <= s[j]->0
}

/// `new` is `old` after the crossover at `index` was set: that one is kept,
/// each one above is raised to its lower neighbour's new value where it lies
/// below it, each one below is lowered to its upper neighbour's new value
/// where it lies above it.
pub open spec fn crossovers_enforced(old: Seq<Option<u64>>, new: Seq<Option<u64>>, index: int) -> bool {
    &&& new.len() == old.len()
    &&& 0 <= index < old.len()
    &&& new[index] == old[index]
    &&& forall|i: int|
        index < i < new.len() ==> new[i] == if below(#[trigger] old[i], new[i - 1]) {
            new[i - 1]
        } else {
            old[i]
        }
    &&& forall|i: int|
        0 <= i < index ==> new[i] == if below(new[i + 1], #[trigger] old[i]) {
            new[i + 1]
        } else {
            old[i]
        }
}

/// Whether `a` lies below `b`.
pub fn is_below(a: Option<u64>, b: Option<u64>) -> (r: bool)
    ensures
        r == below(a, b),
{
    match (a, b) {
        (Some(x), Some(y)) => x < y,
        _ => false,
    }
}

/// Keep the crossover points in ascending order after the one at `index` was
/// set.
///
/// The crossovers are given by keys that order them as their frequencies do
/// (`None` for a frequency that is not a number, which compares with
/// nothing). The one at `index` stays; each one above it is raised to the one
/// below it where it lies lower, walking upward; then each one below `index`
/// is lowered to the one above it where it lies higher, walking downward. The
/// result tells which crossovers moved, so that their filters can be
/// redesigned.
pub fn enforce_ascending_crossovers(keys: &mut Vec<Option<u64>>, index: usize) -> (changed: Vec<bool>)
    requires
        index < old(keys).len(),
    ensures
        crossovers_enforced(old(keys)@, final(keys)@, index as int),
        changed.len() == old(keys).len(),
        forall|i: int|
            0 <= i < changed.len() ==> #[trigger] changed@[i] == (final(keys)@[i] != old(
                keys,
            )@[i]),
        all_known(old(keys)@) ==> ascending(final(keys)@),
{
    let ghost orig = keys@;
    let n = keys.len();
    let mut changed: Vec<bool> = Vec::new();
    let mut k: usize = 0;
    while k < n
        invariant
            k <= n,
            changed.len() == k,
            forall|i: int| 0 <= i < k ==> !#[trigger] changed@[i],
        decreases n - k,
    {
        changed.push(false);
        k = k + 1;
    }
    let mut i: usize = index + 1;
    while i < n
        invariant
            n == keys.len(),
            n == orig.len(),
            n == changed.len(),
            index < i <= n,
            keys@[index as int] == orig[index as int],
            forall|p: int| i <= p < n ==> #[trigger] keys@[p] == orig[p],
            forall|p: int| i <= p < n ==> !#[trigger] changed@[p],
            forall|p: int| 0 <= p < index ==> #[trigger] keys@[p] == orig[p],
            forall|p: int| 0 <= p < index ==> !#[trigger] changed@[p],
            !changed@[index as int],
            forall|p: int|
                index < p < i ==> keys@[p] == if below(#[trigger] orig[p], keys@[p - 1]) {
                    keys@[p - 1]
                } else {
                    orig[p]
                },
            forall|p: int| index <= p < i ==> #[trigger] changed@[p] == (keys@[p] != orig[p]),
        decreases n - i,
    {
        let ghost before = keys@;
        let ghost flags = changed@;
        if is_below(keys[i], keys[i - 1]) {
            let v = keys[i - 1];
            keys.set(i, v);
            changed.set(i, true);
        }
        assert forall|p: int| i < p < n implies keys@[p] == orig[p] && !changed@[p] by {
            assert(keys@[p] == before[p] && changed@[p] == flags[p]);
        }
        assert forall|p: int| 0 <= p < index implies keys@[p] == orig[p] && !changed@[p] by {
            assert(keys@[p] == before[p] && changed@[p] == flags[p]);
        }
        i = i + 1;
    }
    let mut j: usize = index;
    while j > 0
        invariant
            n == keys.len(),
            n == orig.len(),
            n == changed.len(),
            j <= index < n,
            keys@[index as int] == orig[index as int],
            forall|p: int| 0 <= p < j ==> #[trigger] keys@[p] == orig[p],
            forall|p: int| 0 <= p < j ==> !#[trigger] changed@[p],
            forall|p: int|
                index < p < n ==> keys@[p] == if below(#[trigger] orig[p], keys@[p - 1]) {
                    keys@[p - 1]
                } else {
                    orig[p]
                },
            forall|p: int|
                j <= p < index ==> keys@[p] == if below(keys@[p + 1], #[trigger] orig[p]) {
                    keys@[p + 1]
                } else {
                    orig[p]
                },
            forall|p: int| j <= p < n ==> #[trigger] changed@[p] == (keys@[p] != orig[p]),
        decreases j,
    {
        j = j - 1;
        let ghost before = keys@;
        let ghost flags = changed@;
        if is_below(keys[j + 1], keys[j]) {
            let v = keys[j + 1];
            keys.set(j, v);
            changed.set(j, true);
        }
        assert forall|p: int| 0 <= p < j implies keys@[p] == orig[p] && !changed@[p] by {
            assert(keys@[p] == before[p] && changed@[p] == flags[p]);
        }
    }
    proof {
        if all_known(orig) {
            lemma_enforced_crossovers_ascend(orig, keys@, index as int);
        }
    }
    changed
}

/// Enforcing the order after any one crossover was set, all of them known,
/// always leaves all crossovers in ascending order.
pub proof fn lemma_enforced_crossovers_ascend(old: Seq<Option<u64>>, new: Seq<Option<u64>>, index: int)
    requires
        crossovers_enforced(old, new, index),
        all_known(old),
    ensures
        ascending(new),
{
    assert forall|i: int| 0 <= i < new.len() implies #[trigger] new[i] is Some by {
        lemma_enforced_known(old, new, index, i);
    }
    assert forall|i: int, j: int| 0 <= i <= j < new.len() implies new[i]->0 <= new[j]->0 by {
        lemma_enforced_pair(old, new, index, i, j);
    }
}

proof fn lemma_enforced_known(old: Seq<Option<u64>>, new: Seq<Option<u64>>, index: int, i: int)
    requires
        crossovers_enforced(old, new, index),
        all_known(old),
        0 <= i < new.len(),
    ensures
        new[i] is Some,
    decreases if i >= index { i - index } else { index - i },
{
    assert(old[i] is Some);
    if i > index {
        lemma_enforced_known(old, new, index, i - 1);
        assert(new[i] == if below(old[i], new[i - 1]) { new[i - 1] } else { old[i] });
    } else if i < index {
        lemma_enforced_known(old, new, index, i + 1);
        assert(new[i] == if below(new[i + 1], old[i]) { new[i + 1] } else { old[i] });
    }
}

proof fn lemma_enforced_pair(old: Seq<Option<u64>>, new: Seq<Option<u64>>, index: int, i: int, j: int)
    requires
        crossovers_enforced(old, new, index),
        all_known(old),
        0 <= i <= j < new.len(),
    ensures
        new[i]->0 <= new[j]->0,
    decreases j - i,
{
    if i < j {
        lemma_enforced_pair(old, new, index, i, j - 1);
        lemma_enforced_known(old, new, index, j);
        lemma_enforced_known(old, new, index, j - 1);
        assert(old[j] is Some && old[j - 1] is Some);
        if j > index {
            assert(new[j] == if below(old[j], new[j - 1]) { new[j - 1] } else { old[j] });
        } else {
            assert(new[j - 1] == if below(new[j], old[j - 1]) { new[j] } else { old[j - 1] });
        }
        assert(new[j - 1]->0 <= new[j]->0);
    }
}

/// Setting a crossover that keeps the order moves no other crossover: on
/// keys already in ascending order, enforcement changes nothing.
pub proof fn lemma_ascending_crossovers_stay(old: Seq<Option<u64>>, new: Seq<Option<u64>>, index: int)
    requires
        crossovers_enforced(old, new, index),
        ascending(old),
    ensures
        new == old,
{
    assert forall|i: int| 0 <= i < new.len() implies new[i] == old[i] by {
        if i > index {
            lemma_stay_above(old, new, index, i);
        } else if i < index {
            lemma_stay_below(old, new, index, i);
        }
    }
    assert(new =~= old);
}

proof fn lemma_stay_above(old: Seq<Option<u64>>, new: Seq<Option<u64>>, index: int, i: int)
    requires
        crossovers_enforced(old, new, index),
        ascending(old),
        index <= i < new.len(),
    ensures
        new[i] == old[i],
    decreases i - index,
{
    if i > index {
        lemma_stay_above(old, new, index, i - 1);
        assert(old[i - 1] is Some && old[i] is Some);
        assert(old[i - 1]->0 <= old[i]->0);
        assert(new[i] == if below(old[i], new[i - 1]) { new[i - 1] } else { old[i] });
    }
}

proof fn lemma_stay_below(old: Seq<Option<u64>>, new: Seq<Option<u64>>, index: int, i: int)
    requires
        crossovers_enforced(old, new, index),
        ascending(old),
        0 <= i <= index,
    ensures
        new[i] == old[i],
    decreases index - i,
{
    if i < index {
        lemma_stay_below(old, new, index, i + 1);
        assert(old[i] is Some && old[i + 1] is Some);
        assert(old[i]->0 <= old[i + 1]->0);
        assert(new[i] == if below(new[i + 1], old[i]) { new[i + 1] } else { old[i] });
    }
}

/// Setting one crossover of an ascending set to `v`: those below it end up
/// at `min(old, v)`, those above at `max(old, v)`.
pub proof fn lemma_enforced_from_ascending(
    prior: Seq<Option<u64>>,
    v: u64,
    new: Seq<Option<u64>>,
    index: int,
)
    requires
        ascending(prior),
        0 <= index < prior.len(),
        crossovers_enforced(prior.update(index, Some(v)), new, index),
    ensures
        new[index] == Some(v),
        forall|i: int|
            0 <= i < index ==> #[trigger] new[i] == if prior[i]->0 < v { prior[i] } else { Some(v) },
        forall|i: int|
            index < i < new.len() ==> #[trigger] new[i] == if prior[i]->0 > v { prior[i] } else { Some(v) },
{
    assert forall|i: int| 0 <= i < index implies #[trigger] new[i] == if prior[i]->0 < v {
        prior[i]
    } else {
        Some(v)
    } by {
        lemma_from_ascending_below(prior, v, new, index, i);
    }
    assert forall|i: int| index < i < new.len() implies #[trigger] new[i] == if prior[i]->0 > v {
        prior[i]
    } else {
        Some(v)
    } by {
        lemma_from_ascending_above(prior, v, new, index, i);
    }
}

proof fn lemma_from_ascending_above(
    prior: Seq<Option<u64>>,
    v: u64,
    new: Seq<Option<u64>>,
    index: int,
    i: int,
)
    requires
        ascending(prior),
        0 <= index < prior.len(),
        crossovers_enforced(prior.update(index, Some(v)), new, index),
        index < i < new.len(),
    ensures
        new[i] == if prior[i]->0 > v { prior[i] } else { Some(v) },
    decreases i - index,
{
    let old = prior.update(index, Some(v));
    assert(old[i] == prior[i]);
    assert(prior[i] is Some);
    assert(new[i] == if below(old[i], new[i - 1]) { new[i - 1] } else { old[i] });
    if i - 1 > index {
        lemma_from_ascending_above(prior, v, new, index, i - 1);
        assert(prior[i - 1] is Some);
        assert(prior[i - 1]->0 <= prior[i]->0);
    }
}

proof fn lemma_from_ascending_below(
    prior: Seq<Option<u64>>,
    v: u64,
    new: Seq<Option<u64>>,
    index: int,
    i: int,
)
    requires
        ascending(prior),
        0 <= index < prior.len(),
        crossovers_enforced(prior.update(index, Some(v)), new, index),
        0 <= i < index,
    ensures
        new[i] == if prior[i]->0 < v { prior[i] } else { Some(v) },
    decreases index - i,
{
    let old = prior.update(index, Some(v));
    assert(old[i] == prior[i]);
    assert(prior[i] is Some);
    assert(new[i] == if below(new[i + 1], old[i]) { new[i + 1] } else { old[i] });
    if i + 1 < index {
        lemma_from_ascending_below(prior, v, new, index, i + 1);
        assert(prior[i + 1] is Some);
        assert(prior[i]->0 <= prior[i + 1]->0);
    }
}

} // verus!
