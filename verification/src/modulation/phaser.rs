use vstd::prelude::*;

verus! {

/// Largest number of allpass stages per channel.
pub const MAX_STAGES: u32 = 12;

/// Fewest allpass stages per channel.
pub const MIN_STAGES: u32 = 2;

/// Clamp a rounded stage count into `MIN_STAGES..=MAX_STAGES`.
pub fn clamp_stage_count(rounded: u32) -> (n: u32)
    ensures
        n == if rounded < MIN_STAGES {
            MIN_STAGES
        } else if rounded > MAX_STAGES {
            MAX_STAGES
        } else {
            rounded
        },
{
    if rounded < MIN_STAGES {
        MIN_STAGES
    } else if rounded > MAX_STAGES {
        MAX_STAGES
    } else {
        rounded
    }
}

} // verus!
