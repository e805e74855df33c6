//! Core of a sample-synchronous signal-processing graph: the node contract
//! that every processing unit satisfies, and a sine oscillator exercising it.
//!
//! All per-sample state is kept in fixed-point integers so that the phase
//! arithmetic is exact and fully verified. The floating-point boundary
//! (evaluating the sine of a phase, converting device sample rates) belongs
//! to the unverified shell around this library.

pub mod audionode;
pub mod math;
pub mod oscillator;
pub mod signal;
