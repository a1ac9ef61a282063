//! Integer core of a direct-summation Fourier analysis pipeline.
//!
//! The transform itself sums in double precision and lives with the
//! program that drives it. This library holds everything around the sums
//! that is decided over integers: how an amplitude becomes a 16-bit sample,
//! which samples a transform of a given size reads, which frequency each
//! bin stands for, how many bins the inverse transform accepts, and
//! whether a rebuilt value still is a sample.

pub mod bins;
pub mod diagnostics;
pub mod error;
pub mod sample;
pub mod signal;
