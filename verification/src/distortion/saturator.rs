use vstd::prelude::*;

verus! {

/// Waveshaping model of the saturator.
#[derive(Debug, Clone, Copy, PartialEq, Eq, Structural)]
pub enum SaturationMode {
    Tube,
    Tape,
    Transistor,
    Diode,
    Fuzz,
}

impl SaturationMode {
    /// Position of the mode in the parameter list.
    pub open spec fn index(self) -> nat {
        match self {
            SaturationMode::Tube => 0,
            SaturationMode::Tape => 1,
            SaturationMode::Transistor => 2,
            SaturationMode::Diode => 3,
            SaturationMode::Fuzz => 4,
        }
    }

    /// Display name of the mode.
    pub open spec fn label(self) -> Seq<char> {
        match self {
            SaturationMode::Tube => "Tube"@,
            SaturationMode::Tape => "Tape"@,
            SaturationMode::Transistor => "Transistor"@,
            SaturationMode::Diode => "Diode"@,
            SaturationMode::Fuzz => "Fuzz"@,
        }
    }

    /// Mode for a rounded parameter value: 0..=4 name the modes in order,
    /// anything else falls back to `Tube`.
    pub fn from_rounded(v: i32) -> (m: SaturationMode)
        ensures
            0 <= v <= 4 ==> m.index() == v,
            !(0 <= v <= 4) ==> m == SaturationMode::Tube,
    {
        match v {
            0 => SaturationMode::Tube,
            1 => SaturationMode::Tape,
            2 => SaturationMode::Transistor,
            3 => SaturationMode::Diode,
            4 => SaturationMode::Fuzz,
            _ => SaturationMode::Tube,
        }
    }

    /// Parameter value of the mode.
    pub fn to_index(self) -> (i: u32)
        ensures
            i == self.index(),
    {
        match self {
            SaturationMode::Tube => 0,
            SaturationMode::Tape => 1,
            SaturationMode::Transistor => 2,
            SaturationMode::Diode => 3,
            SaturationMode::Fuzz => 4,
        }
    }

    /// Display name of the mode.
    pub fn name(self) -> (s: &'static str)
        ensures
            s@ == self.label(),
    {
        match self {
            SaturationMode::Tube => "Tube",
            SaturationMode::Tape => "Tape",
            SaturationMode::Transistor => "Transistor",
            SaturationMode::Diode => "Diode",
            SaturationMode::Fuzz => "Fuzz",
        }
    }
}

/// Saturation modes are identified by their parameter index.
pub proof fn lemma_saturation_mode_index_injective(a: SaturationMode, b: SaturationMode)
    ensures
        a.index() == b.index() ==> a == b,
        a.index() <= 4,
{
}

/// Oversampling factor for an oversampling parameter value.
pub open spec fn oversampling_factor(param: u32) -> nat {
    if param == 0 {
        1
    } else if param == 2 {
        4
    } else {
        2
    }
}

/// Map oversampling parameter (0..2) to actual factor: 0 → 1x, 1 → 2x,
/// 2 → 4x; other values fall back to 2x.
pub fn os_param_to_factor(param: u32) -> (f: usize)
    ensures
        f == oversampling_factor(param),
{
    match param {
        0 => 1,
        1 => 2,
        2 => 4,
        _ => 2,
    }
}

/// Display label of an oversampling parameter value, matching
/// `os_param_to_factor`.
pub fn oversampling_label(param: u32) -> (s: &'static str)
    ensures
        param == 0 ==> s@ == "1x"@,
        param == 2 ==> s@ == "4x"@,
        param != 0 && param != 2 ==> s@ == "2x"@,
{
    match param {
        0 => "1x",
        1 => "2x",
        2 => "4x",
        _ => "2x",
    }
}

/// Oversampling parameter actually stored for a rounded value: at most 2.
pub fn clamp_oversampling_param(rounded: u32) -> (p: u32)
    ensures
        p <= 2,
        rounded <= 2 ==> p == rounded,
        rounded > 2 ==> p == 2,
{
    if rounded > 2 { 2 } else { rounded }
}

} // verus!
