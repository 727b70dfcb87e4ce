use vstd::prelude::*;

verus! {

/// Number of bands of the parametric EQ.
pub const EQ_BAND_COUNT: usize = 8;

/// Number of parameters: four per band, then bypass.
pub const EQ_PARAM_COUNT: u32 = 33;

/// The per-band controls, in the order of their parameter slots.
#[derive(Debug, Clone, Copy, PartialEq, Eq, Structural)]
pub enum BandField {
    Frequency,
    Gain,
    Q,
    Type,
}

impl BandField {
    /// Slot of the control within its band's group of four parameters.
    pub open spec fn slot(self) -> nat {
        match self {
            BandField::Frequency => 0,
            BandField::Gain => 1,
            BandField::Q => 2,
            BandField::Type => 3,
        }
    }
}

/// A parameter of the parametric EQ, as named by its parameter ID.
#[derive(Debug, Clone, Copy, PartialEq, Eq, Structural)]
pub enum EqParam {
    Band { band: usize, field: BandField },
    Bypass,
}

impl EqParam {
    /// Parameter ID of this parameter: `band * 4 + slot`, and 32 for bypass.
    pub open spec fn id(self) -> nat {
        match self {
            EqParam::Band { band, field } => band as nat * 4 + field.slot(),
            EqParam::Bypass => 32,
        }
    }

    /// The band index is in range.
    pub open spec fn is_valid(self) -> bool {
        match self {
            EqParam::Band { band, field } => band < EQ_BAND_COUNT,
            EqParam::Bypass => true,
        }
    }

    /// Decode a parameter ID: `band * 4 + slot` for the 32 band controls
    /// (frequency, gain, Q, type), 32 for bypass, nothing past that.
    pub fn from_id(id: u32) -> (p: Option<EqParam>)
        ensures
            p is Some <==> id < EQ_PARAM_COUNT,
            p matches Some(q) ==> q.is_valid() && q.id() == id,
    {
        if id == 32 {
            return Some(EqParam::Bypass);
        }
        if id > 32 {
            return None;
        }
        let band = (id / 4) as usize;
        let sub = id % 4;
        let field = if sub == 0 {
            BandField::Frequency
        } else if sub == 1 {
            BandField::Gain
        } else if sub == 2 {
            BandField::Q
        } else {
            BandField::Type
        };
        Some(EqParam::Band { band, field })
    }
}

/// Distinct EQ parameters have distinct IDs, and every valid parameter has an
/// ID below the parameter count: the ID layout is a bijection onto `0..33`.
pub proof fn lemma_eq_param_ids_distinct(p: EqParam, q: EqParam)
    ensures
        p.is_valid() ==> p.id() < EQ_PARAM_COUNT,
        p.is_valid() && q.is_valid() && p.id() == q.id() ==> p == q,
{
    if p.is_valid() && q.is_valid() && p.id() == q.id() {
        match (p, q) {
            (EqParam::Band { band: b1, field: f1 }, EqParam::Band { band: b2, field: f2 }) => {
                assert(b1 == b2 && f1.slot() == f2.slot()) by (nonlinear_arith)
                    requires
                        b1 as nat * 4 + f1.slot() == b2 as nat * 4 + f2.slot(),
                        f1.slot() < 4,
                        f2.slot() < 4,
                ;
            },
            _ => {},
        }
    }
}

} // verus!
