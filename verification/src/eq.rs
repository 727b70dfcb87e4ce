pub mod biquad;
pub mod parametric;
