use moonlitt_effects::modulation::lfo::{xorshift64, LfoShape, NoteValue};

#[test]
fn note_value_from_index_clamps() {
    assert_eq!(NoteValue::from_index(0), NoteValue::ThirtySecond);
    assert_eq!(NoteValue::from_index(8), NoteValue::Quarter);
    assert_eq!(NoteValue::from_index(16), NoteValue::FourBar);
    assert_eq!(NoteValue::from_index(17), NoteValue::FourBar);
    assert_eq!(NoteValue::from_index(u32::MAX), NoteValue::FourBar);
}

#[test]
fn lfo_shape_from_index_clamps() {
    assert_eq!(LfoShape::from_index(0), LfoShape::Sine);
    assert_eq!(LfoShape::from_index(3), LfoShape::Square);
    assert_eq!(LfoShape::from_index(4), LfoShape::SampleAndHold);
    assert_eq!(LfoShape::from_index(9), LfoShape::SampleAndHold);
}

#[test]
fn xorshift64_known_value() {
    // 1 -> 1 ^ (1 << 13) = 0x2001; ^ (0x2001 >> 7) = 0x2041; ^ (0x2041 << 17)
    let a: u64 = 1 ^ (1 << 13);
    let b = a ^ (a >> 7);
    let c = b ^ (b << 17);
    assert_eq!(xorshift64(1), c);
    assert_eq!(xorshift64(1), 0x4082_2041);
    assert_eq!(xorshift64(0), 0);
}

#[test]
fn note_value_beats() {
    assert_eq!(NoteValue::ThirtySecond.beats(), (1, 8));
    assert_eq!(NoteValue::SixteenthTriplet.beats(), (1, 6));
    assert_eq!(NoteValue::DottedEighth.beats(), (3, 4));
    assert_eq!(NoteValue::Quarter.beats(), (1, 1));
    assert_eq!(NoteValue::WholeTriplet.beats(), (8, 3));
    assert_eq!(NoteValue::FourBar.beats(), (16, 1));
    // A dotted sixteenth outlasts an eighth triplet.
    let (a, b) = NoteValue::DottedSixteenth.beats();
    let (c, d) = NoteValue::EighthTriplet.beats();
    assert!(a * d > c * b);
}

#[test]
fn sync_labels_and_shape_indices() {
    assert_eq!(NoteValue::from_index(0).sync_label(), "1/32");
    assert_eq!(NoteValue::from_index(6).sync_label(), "1/8.");
    assert_eq!(NoteValue::from_index(15).sync_label(), "2 Bar");
    assert_eq!(NoteValue::from_index(40).sync_label(), "4 Bar");
    for i in 0..5u32 {
        assert_eq!(LfoShape::from_index(i).to_index(), i);
    }
    assert_eq!(LfoShape::from_index(7).to_index(), 4);
}
