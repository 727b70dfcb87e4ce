use vstd::prelude::*;

verus! {

/// The oversampling factors the limiter offers.
pub open spec fn limiter_oversampling(rounded: nat) -> nat {
    if rounded <= 1 {
        1
    } else if rounded <= 2 {
        2
    } else {
        4
    }
}

/// Snap a rounded oversampling setting to 1, 2 or 4: at most 1 gives 1,
/// 2 gives 2, anything above gives 4.
pub fn oversampling_from_rounded(rounded: u32) -> (factor: u32)
    ensures
        factor == limiter_oversampling(rounded as nat),
{
    if rounded <= 1 {
        1
    } else if rounded <= 2 {
        2
    } else {
        4
    }
}

} // verus!
