use vstd::prelude::*;

verus! {

/// Musical note value for tempo-synced LFO rates.
///
/// Seventeen divisions from 1/32 to four bars, including triplet and dotted
/// variants.
#[derive(Debug, Clone, Copy, PartialEq, Eq, Structural)]
pub enum NoteValue {
    ThirtySecond,
    SixteenthTriplet,
    Sixteenth,
    DottedSixteenth,
    EighthTriplet,
    Eighth,
    DottedEighth,
    QuarterTriplet,
    Quarter,
    DottedQuarter,
    HalfTriplet,
    Half,
    DottedHalf,
    WholeTriplet,
    Whole,
    TwoBar,
    FourBar,
}

/// Number of note values; parameter indices run from 0 to `NOTE_VALUE_COUNT - 1`.
pub const NOTE_VALUE_COUNT: u32 = 17;

impl NoteValue {
    /// Position of the note value in the parameter list (0 = 1/32, 16 = four bars).
    pub open spec fn index(self) -> nat {
        match self {
            NoteValue::ThirtySecond => 0,
            NoteValue::SixteenthTriplet => 1,
            NoteValue::Sixteenth => 2,
            NoteValue::DottedSixteenth => 3,
            NoteValue::EighthTriplet => 4,
            NoteValue::Eighth => 5,
            NoteValue::DottedEighth => 6,
            NoteValue::QuarterTriplet => 7,
            NoteValue::Quarter => 8,
            NoteValue::DottedQuarter => 9,
            NoteValue::HalfTriplet => 10,
            NoteValue::Half => 11,
            NoteValue::DottedHalf => 12,
            NoteValue::WholeTriplet => 13,
            NoteValue::Whole => 14,
            NoteValue::TwoBar => 15,
            NoteValue::FourBar => 16,
        }
    }

    /// Duration in beats (quarter notes) as a fraction `(numerator,
    /// denominator)`: a dotted value lasts half again as long as the plain
    /// one, a triplet two thirds of it.
    pub open spec fn beats_spec(self) -> (nat, nat) {
        match self {
            NoteValue::ThirtySecond => (1, 8),
            NoteValue::SixteenthTriplet => (1, 6),
            NoteValue::Sixteenth => (1, 4),
            NoteValue::DottedSixteenth => (3, 8),
            NoteValue::EighthTriplet => (1, 3),
            NoteValue::Eighth => (1, 2),
            NoteValue::DottedEighth => (3, 4),
            NoteValue::QuarterTriplet => (2, 3),
            NoteValue::Quarter => (1, 1),
            NoteValue::DottedQuarter => (3, 2),
            NoteValue::HalfTriplet => (4, 3),
            NoteValue::Half => (2, 1),
            NoteValue::DottedHalf => (3, 1),
            NoteValue::WholeTriplet => (8, 3),
            NoteValue::Whole => (4, 1),
            NoteValue::TwoBar => (8, 1),
            NoteValue::FourBar => (16, 1),
        }
    }

    /// Exact duration in beats, as `beats_spec` gives it; a beat lasts
    /// `60000 / bpm` milliseconds.
    pub fn beats(self) -> (b: (u32, u32))
        ensures
            b.0 as nat == self.beats_spec().0,
            b.1 as nat == self.beats_spec().1,
    {
        match self {
            NoteValue::ThirtySecond => (1, 8),
            NoteValue::SixteenthTriplet => (1, 6),
            NoteValue::Sixteenth => (1, 4),
            NoteValue::DottedSixteenth => (3, 8),
            NoteValue::EighthTriplet => (1, 3),
            NoteValue::Eighth => (1, 2),
            NoteValue::DottedEighth => (3, 4),
            NoteValue::QuarterTriplet => (2, 3),
            NoteValue::Quarter => (1, 1),
            NoteValue::DottedQuarter => (3, 2),
            NoteValue::HalfTriplet => (4, 3),
            NoteValue::Half => (2, 1),
            NoteValue::DottedHalf => (3, 1),
            NoteValue::WholeTriplet => (8, 3),
            NoteValue::Whole => (4, 1),
            NoteValue::TwoBar => (8, 1),
            NoteValue::FourBar => (16, 1),
        }
    }

    /// Label of the note value in the tempo-synced modulation effects.
    pub open spec fn sync_label_spec(self) -> Seq<char> {
        match self {
            NoteValue::ThirtySecond => "1/32"@,
            NoteValue::SixteenthTriplet => "1/16T"@,
            NoteValue::Sixteenth => "1/16"@,
            NoteValue::DottedSixteenth => "1/16."@,
            NoteValue::EighthTriplet => "1/8T"@,
            NoteValue::Eighth => "1/8"@,
            NoteValue::DottedEighth => "1/8."@,
            NoteValue::QuarterTriplet => "1/4T"@,
            NoteValue::Quarter => "1/4"@,
            NoteValue::DottedQuarter => "1/4."@,
            NoteValue::HalfTriplet => "1/2T"@,
            NoteValue::Half => "1/2"@,
            NoteValue::DottedHalf => "1/2."@,
            NoteValue::WholeTriplet => "1/1T"@,
            NoteValue::Whole => "1/1"@,
            NoteValue::TwoBar => "2 Bar"@,
            NoteValue::FourBar => "4 Bar"@,
        }
    }

    /// The label that the flanger, phaser and tremolo show for a sync note.
    pub fn sync_label(self) -> (s: &'static str)
        ensures
            s@ == self.sync_label_spec(),
    {
        match self {
            NoteValue::ThirtySecond => "1/32",
            NoteValue::SixteenthTriplet => "1/16T",
            NoteValue::Sixteenth => "1/16",
            NoteValue::DottedSixteenth => "1/16.",
            NoteValue::EighthTriplet => "1/8T",
            NoteValue::Eighth => "1/8",
            NoteValue::DottedEighth => "1/8.",
            NoteValue::QuarterTriplet => "1/4T",
            NoteValue::Quarter => "1/4",
            NoteValue::DottedQuarter => "1/4.",
            NoteValue::HalfTriplet => "1/2T",
            NoteValue::Half => "1/2",
            NoteValue::DottedHalf => "1/2.",
            NoteValue::WholeTriplet => "1/1T",
            NoteValue::Whole => "1/1",
            NoteValue::TwoBar => "2 Bar",
            NoteValue::FourBar => "4 Bar",
        }
    }

    /// Convert a parameter index (0..=16) to a `NoteValue`.
    ///
    /// Out-of-range values are clamped to `FourBar`.
    pub fn from_index(i: u32) -> (n: NoteValue)
        ensures
            i < NOTE_VALUE_COUNT ==> n.index() == i,
            i >= NOTE_VALUE_COUNT ==> n == NoteValue::FourBar,
    {
        match i {
            0 => NoteValue::ThirtySecond,
            1 => NoteValue::SixteenthTriplet,
            2 => NoteValue::Sixteenth,
            3 => NoteValue::DottedSixteenth,
            4 => NoteValue::EighthTriplet,
            5 => NoteValue::Eighth,
            6 => NoteValue::DottedEighth,
            7 => NoteValue::QuarterTriplet,
            8 => NoteValue::Quarter,
            9 => NoteValue::DottedQuarter,
            10 => NoteValue::HalfTriplet,
            11 => NoteValue::Half,
            12 => NoteValue::DottedHalf,
            13 => NoteValue::WholeTriplet,
            14 => NoteValue::Whole,
            15 => NoteValue::TwoBar,
            _ => NoteValue::FourBar,
        }
    }
}

/// LFO waveform shape.
#[derive(Debug, Clone, Copy, PartialEq, Eq, Structural)]
pub enum LfoShape {
    Sine,
    Triangle,
    Saw,
    Square,
    SampleAndHold,
}

impl LfoShape {
    /// Position of the shape in the parameter list.
    pub open spec fn index(self) -> nat {
        match self {
            LfoShape::Sine => 0,
            LfoShape::Triangle => 1,
            LfoShape::Saw => 2,
            LfoShape::Square => 3,
            LfoShape::SampleAndHold => 4,
        }
    }

    /// Convert a parameter index (0..=4) to an `LfoShape`.
    ///
    /// Out-of-range values are clamped to `SampleAndHold`.
    pub fn from_index(i: u32) -> (s: LfoShape)
        ensures
            i <= 4 ==> s.index() == i,
            i > 4 ==> s == LfoShape::SampleAndHold,
    {
        match i {
            0 => LfoShape::Sine,
            1 => LfoShape::Triangle,
            2 => LfoShape::Saw,
            3 => LfoShape::Square,
            _ => LfoShape::SampleAndHold,
        }
    }

    /// The parameter index of this shape.
    pub fn to_index(self) -> (i: u32)
        ensures
            i == self.index(),
    {
        match self {
            LfoShape::Sine => 0,
            LfoShape::Triangle => 1,
            LfoShape::Saw => 2,
            LfoShape::Square => 3,
            LfoShape::SampleAndHold => 4,
        }
    }
}

/// `a` lasts `num / den` times as long as `b`, both durations given as
/// fractions `(numerator, denominator)`.
pub open spec fn lasts_times(a: (nat, nat), num: nat, den: nat, b: (nat, nat)) -> bool {
    a.0 * den * b.1 == num * b.0 * a.1
}

/// Note lengths follow music. A quarter note is one beat; each plain value
/// lasts half as long as the next longer plain one (1/32, 1/16, 1/8, 1/4,
/// 1/2, a whole note, two bars, four bars); a dotted value lasts 3/2 of its
/// plain value and a triplet 2/3 of it. Every length is a proper fraction
/// with a non-zero denominator.
pub proof fn lemma_note_lengths_follow_music(n: NoteValue)
    ensures
        n.beats_spec().1 > 0,
        n.beats_spec().0 > 0,
        NoteValue::Quarter.beats_spec().0 == NoteValue::Quarter.beats_spec().1,
        lasts_times(NoteValue::Sixteenth.beats_spec(), 2, 1, NoteValue::ThirtySecond.beats_spec()),
        lasts_times(NoteValue::Eighth.beats_spec(), 2, 1, NoteValue::Sixteenth.beats_spec()),
        lasts_times(NoteValue::Quarter.beats_spec(), 2, 1, NoteValue::Eighth.beats_spec()),
        lasts_times(NoteValue::Half.beats_spec(), 2, 1, NoteValue::Quarter.beats_spec()),
        lasts_times(NoteValue::Whole.beats_spec(), 2, 1, NoteValue::Half.beats_spec()),
        lasts_times(NoteValue::TwoBar.beats_spec(), 2, 1, NoteValue::Whole.beats_spec()),
        lasts_times(NoteValue::FourBar.beats_spec(), 2, 1, NoteValue::TwoBar.beats_spec()),
        lasts_times(NoteValue::DottedSixteenth.beats_spec(), 3, 2, NoteValue::Sixteenth.beats_spec()),
        lasts_times(NoteValue::DottedEighth.beats_spec(), 3, 2, NoteValue::Eighth.beats_spec()),
        lasts_times(NoteValue::DottedQuarter.beats_spec(), 3, 2, NoteValue::Quarter.beats_spec()),
        lasts_times(NoteValue::DottedHalf.beats_spec(), 3, 2, NoteValue::Half.beats_spec()),
        lasts_times(NoteValue::SixteenthTriplet.beats_spec(), 2, 3, NoteValue::Sixteenth.beats_spec()),
        lasts_times(NoteValue::EighthTriplet.beats_spec(), 2, 3, NoteValue::Eighth.beats_spec()),
        lasts_times(NoteValue::QuarterTriplet.beats_spec(), 2, 3, NoteValue::Quarter.beats_spec()),
        lasts_times(NoteValue::HalfTriplet.beats_spec(), 2, 3, NoteValue::Half.beats_spec()),
        lasts_times(NoteValue::WholeTriplet.beats_spec(), 2, 3, NoteValue::Whole.beats_spec()),
{
    assert(NoteValue::DottedSixteenth.beats_spec() == (3nat, 8nat));
    assert(NoteValue::Sixteenth.beats_spec() == (1nat, 4nat));
    assert(NoteValue::DottedEighth.beats_spec() == (3nat, 4nat));
    assert(NoteValue::Eighth.beats_spec() == (1nat, 2nat));
    assert(3nat * 2 * 4 == 3nat * 1 * 8);
    assert(3nat * 2 * 2 == 3nat * 1 * 4);
}

/// The note values are listed from shortest plain value to longest: the
/// plain values 1/32, 1/16, 1/8, 1/4, 1/2 and a whole note sit at indices 0,
/// 2, 5, 8, 11 and 14, each triplet just before its plain value and each
/// dotted value just after it, then two bars (15) and four bars (16).
pub proof fn lemma_note_index_layout(n: NoteValue)
    ensures
        NoteValue::ThirtySecond.index() == 0,
        NoteValue::Sixteenth.index() == 2,
        NoteValue::Eighth.index() == 5,
        NoteValue::Quarter.index() == 8,
        NoteValue::Half.index() == 11,
        NoteValue::Whole.index() == 14,
        NoteValue::TwoBar.index() == 15,
        NoteValue::FourBar.index() == 16,
        NoteValue::SixteenthTriplet.index() + 1 == NoteValue::Sixteenth.index(),
        NoteValue::EighthTriplet.index() + 1 == NoteValue::Eighth.index(),
        NoteValue::QuarterTriplet.index() + 1 == NoteValue::Quarter.index(),
        NoteValue::HalfTriplet.index() + 1 == NoteValue::Half.index(),
        NoteValue::WholeTriplet.index() + 1 == NoteValue::Whole.index(),
        NoteValue::DottedSixteenth.index() == NoteValue::Sixteenth.index() + 1,
        NoteValue::DottedEighth.index() == NoteValue::Eighth.index() + 1,
        NoteValue::DottedQuarter.index() == NoteValue::Quarter.index() + 1,
        NoteValue::DottedHalf.index() == NoteValue::Half.index() + 1,
{
}

/// LFO shapes keep the parameter order of the effects: index 0 is a sine,
/// 1 a triangle, 2 a saw, 3 a square and 4 sample-and-hold, so that
/// `from_index(i)` for `i <= 4` is the shape at that position, and every
/// index from 5 on selects sample-and-hold.
pub proof fn lemma_lfo_shape_order(s: LfoShape)
    ensures
        LfoShape::Sine.index() == 0,
        LfoShape::Triangle.index() == 1,
        LfoShape::Saw.index() == 2,
        LfoShape::Square.index() == 3,
        LfoShape::SampleAndHold.index() == 4,
        s.index() == 1 <==> s == LfoShape::Triangle,
        s.index() == 2 <==> s == LfoShape::Saw,
{
    match s {
        LfoShape::Sine => {},
        LfoShape::Triangle => {},
        LfoShape::Saw => {},
        LfoShape::Square => {},
        LfoShape::SampleAndHold => {},
    }
}

/// Parameter indices identify note values and LFO shapes: equal indices
/// mean equal values, so `from_index` inverts `index` on every value.
pub proof fn lemma_index_injective(a: NoteValue, b: NoteValue, s: LfoShape, t: LfoShape)
    ensures
        a.index() == b.index() ==> a == b,
        a.index() < NOTE_VALUE_COUNT,
        s.index() == t.index() ==> s == t,
        s.index() <= 4,
{
}

/// One step of Marsaglia's xorshift64 generator (shifts 13, 7, 17).
pub open spec fn xorshift64_step(s: u64) -> u64 {
    let a = s ^ (s << 13u64);
    let b = a ^ (a >> 7u64);
    b ^ (b << 17u64)
}

/// xorshift64 PRNG step — fast, non-allocating, deterministic.
pub fn xorshift64(state: u64) -> (next: u64)
    ensures
        next == xorshift64_step(state),
        state != 0 ==> next != 0,
{
    let mut s = state;
    s = s ^ (s << 13u64);
    s = s ^ (s >> 7u64);
    s = s ^ (s << 17u64);
    proof {
        lemma_xorshift64_nonzero(state);
    }
    s
}

/// xorshift64 sends zero to zero and every non-zero state to a non-zero
/// one: a generator seeded with anything but zero never gets stuck at zero.
pub proof fn lemma_xorshift64_nonzero(s: u64)
    ensures
        s != 0 ==> xorshift64_step(s) != 0,
        xorshift64_step(0) == 0,
{
    assert(xorshift64_step(0) == 0) by (bit_vector);
    let a = s ^ (s << 13u64);
    let b = a ^ (a >> 7u64);
    let c = b ^ (b << 17u64);
    assert(s != 0 ==> a != 0) by (bit_vector)
        requires
            a == s ^ (s << 13u64),
    ;
    assert(a != 0 ==> b != 0) by (bit_vector)
        requires
            b == a ^ (a >> 7u64),
    ;
    assert(b != 0 ==> c != 0) by (bit_vector)
        requires
            c == b ^ (b << 17u64),
    ;
}

} // verus!
