//! A multi-channel audio mixer in fixed-point arithmetic.
//!
//! Gains and pan positions are integers in units of 1/65536, samples are
//! signed 16-bit values. The mixer sums the audible channels exactly, applies
//! the master gain and rounds once, so every output sample is a stated
//! function of the channel parameters and the input frames.

pub mod engine;
pub mod error;
pub mod channel;
pub mod frame;
pub mod laws;
pub mod mix;
pub mod mixer;
pub mod session;
