use vstd::prelude::*;

verus! {

/// Largest number of chorus voices.
pub const MAX_VOICES: u32 = 4;

/// Clamp a rounded voice count into `1..=MAX_VOICES`.
pub fn clamp_voice_count(rounded: u32) -> (n: u32)
    ensures
        n == if rounded < 1 { 1 } else if rounded > MAX_VOICES { MAX_VOICES } else { rounded },
{
    if rounded < 1 {
        1
    } else if rounded > MAX_VOICES {
        MAX_VOICES
    } else {
        rounded
    }
}

} // verus!
