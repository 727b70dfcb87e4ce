use vstd::prelude::*;

verus! {

/// Response shape of one biquad section (Audio EQ Cookbook families).
#[derive(Debug, Clone, Copy, PartialEq, Eq, Structural)]
pub enum FilterType {
    Peak,
    LowShelf,
    HighShelf,
    Lowpass,
    Highpass,
    Notch,
}

/// Number of filter types; parameter indices run from 0 to `FILTER_TYPE_COUNT - 1`.
pub const FILTER_TYPE_COUNT: u32 = 6;

impl FilterType {
    /// Position of the filter type in the parameter list.
    pub open spec fn index(self) -> nat {
        match self {
            FilterType::Peak => 0,
            FilterType::LowShelf => 1,
            FilterType::HighShelf => 2,
            FilterType::Lowpass => 3,
            FilterType::Highpass => 4,
            FilterType::Notch => 5,
        }
    }

    /// Map an integer (used in param IDs) to a filter type.
    ///
    /// Indices past the last type fall back to `Peak`.
    pub fn from_index(i: u32) -> (t: FilterType)
        ensures
            i < FILTER_TYPE_COUNT ==> t.index() == i,
            i >= FILTER_TYPE_COUNT ==> t == FilterType::Peak,
    {
        match i {
            0 => FilterType::Peak,
            1 => FilterType::LowShelf,
            2 => FilterType::HighShelf,
            3 => FilterType::Lowpass,
            4 => FilterType::Highpass,
            5 => FilterType::Notch,
            _ => FilterType::Peak,
        }
    }

    /// The parameter index of this filter type.
    pub fn to_index(self) -> (i: u32)
        ensures
            i == self.index(),
            i < FILTER_TYPE_COUNT,
    {
        match self {
            FilterType::Peak => 0,
            FilterType::LowShelf => 1,
            FilterType::HighShelf => 2,
            FilterType::Lowpass => 3,
            FilterType::Highpass => 4,
            FilterType::Notch => 5,
        }
    }
}

/// Parameter indices identify filter types: two types with the same index
/// are the same type, so `from_index(t.to_index()) == t` for every `t`.
pub proof fn lemma_filter_type_index_injective(t: FilterType, u: FilterType)
    ensures
        t.index() == u.index() ==> t == u,
{
}

} // verus!
