use vstd::prelude::*;

verus! {

/// Level detector of the compressor's sidechain.
#[derive(Debug, Clone, Copy, PartialEq, Eq, Structural)]
pub enum DetectionMode {
    /// Absolute sample value.
    Peak,
    /// Root mean square over a sliding window.
    Rms,
}

} // verus!
