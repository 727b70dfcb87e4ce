pub mod compressor;
pub mod gate;
pub mod limiter;
pub mod multiband_compressor;
