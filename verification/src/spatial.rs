pub mod dattorro;
pub mod reverb;
pub mod convolver;
pub mod partition;
