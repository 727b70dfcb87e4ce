use vstd::prelude::*;

verus! {

/// Filter response swept by the auto-filter.
#[derive(Debug, Clone, Copy, PartialEq, Eq, Structural)]
pub enum AutoFilterType {
    Lowpass,
    Highpass,
    Bandpass,
}

impl AutoFilterType {
    /// Position of the filter type in the parameter list.
    pub open spec fn index(self) -> nat {
        match self {
            AutoFilterType::Lowpass => 0,
            AutoFilterType::Highpass => 1,
            AutoFilterType::Bandpass => 2,
        }
    }

    /// Filter type for a rounded parameter value; 2 and above is bandpass.
    pub fn from_rounded(i: u32) -> (t: AutoFilterType)
        ensures
            i <= 2 ==> t.index() == i,
            i > 2 ==> t == AutoFilterType::Bandpass,
    {
        match i {
            0 => AutoFilterType::Lowpass,
            1 => AutoFilterType::Highpass,
            _ => AutoFilterType::Bandpass,
        }
    }

    /// Parameter value of the filter type.
    pub fn to_index(self) -> (i: u32)
        ensures
            i == self.index(),
    {
        match self {
            AutoFilterType::Lowpass => 0,
            AutoFilterType::Highpass => 1,
            AutoFilterType::Bandpass => 2,
        }
    }

    /// Short display label ("LP", "HP", "BP").
    pub fn label(self) -> (s: &'static str)
        ensures
            self == AutoFilterType::Lowpass ==> s@ == "LP"@,
            self == AutoFilterType::Highpass ==> s@ == "HP"@,
            self == AutoFilterType::Bandpass ==> s@ == "BP"@,
    {
        match self {
            AutoFilterType::Lowpass => "LP",
            AutoFilterType::Highpass => "HP",
            AutoFilterType::Bandpass => "BP",
        }
    }
}

/// Source of the auto-filter's cutoff modulation.
#[derive(Debug, Clone, Copy, PartialEq, Eq, Structural)]
pub enum ModSource {
    Envelope,
    Lfo,
}

} // verus!
