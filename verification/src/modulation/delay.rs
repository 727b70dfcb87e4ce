use vstd::prelude::*;

use crate::modulation::lfo::NoteValue;

verus! {

/// Label of a note value as shown to the user.
pub open spec fn note_label(n: NoteValue) -> Seq<char> {
    match n {
        NoteValue::ThirtySecond => "1/32"@,
        NoteValue::SixteenthTriplet => "1/16T"@,
        NoteValue::Sixteenth => "1/16"@,
        NoteValue::DottedSixteenth => "1/16."@,
        NoteValue::EighthTriplet => "1/8T"@,
        NoteValue::Eighth => "1/8"@,
        NoteValue::DottedEighth => "1/8."@,
        NoteValue::QuarterTriplet => "1/4T"@,
        NoteValue::Quarter => "1/4"@,
        NoteValue::DottedQuarter => "1/4."@,
        NoteValue::HalfTriplet => "1/2T"@,
        NoteValue::Half => "1/2"@,
        NoteValue::DottedHalf => "1/2."@,
        NoteValue::WholeTriplet => "1/1T"@,
        NoteValue::Whole => "1/1"@,
        NoteValue::TwoBar => "2 bars"@,
        NoteValue::FourBar => "4 bars"@,
    }
}

/// Return a human-readable label for a `NoteValue` index: the label of the
/// note value that `NoteValue::from_index` picks for the same index, so an
/// index past the last one reads "4 bars".
pub fn note_value_label(index: u32) -> (s: &'static str)
    ensures
        forall|n: NoteValue|
            (index < 17 ==> n.index() == index) && (index >= 17 ==> n == NoteValue::FourBar)
                ==> s@ == note_label(n),
{
    let s = match index {
        0 => "1/32",
        1 => "1/16T",
        2 => "1/16",
        3 => "1/16.",
        4 => "1/8T",
        5 => "1/8",
        6 => "1/8.",
        7 => "1/4T",
        8 => "1/4",
        9 => "1/4.",
        10 => "1/2T",
        11 => "1/2",
        12 => "1/2.",
        13 => "1/1T",
        14 => "1/1",
        15 => "2 bars",
        _ => "4 bars",
    };
    s
}

/// Sync note index actually stored for a rounded parameter value: at most 16.
pub fn clamp_sync_note(rounded: u32) -> (i: u32)
    ensures
        i == if rounded <= 16 { rounded } else { 16 },
{
    if rounded > 16 { 16 } else { rounded }
}

} // verus!
