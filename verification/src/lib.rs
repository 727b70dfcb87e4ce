//! Discrete core of the moonlitt audio effects: parameter tables and mode
//! enums, pseudo-random generators, ring buffers and delay-line taps, the
//! noise gate's state machine, crossover ordering, reverb buffer layouts,
//! convolution partitioning and oversampling plans.
//!
//! Sample arithmetic (filters, gains, envelopes) lives with the host
//! application; every function here works on integers, booleans, enums and
//! generic samples whose values it only moves, never computes.

pub mod modulation;
pub mod eq;
pub mod dynamics;
pub mod spatial;
pub mod distortion;
pub mod common;
