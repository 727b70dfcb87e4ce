pub mod oversampler;
