//! Control logic of a morphing sine / square / saw / pulse oscillator with
//! hard sync and through-zero frequency.
//!
//! The oscillator's arithmetic runs on floating-point samples; every decision
//! it takes (which side of a clamp, which waveform segment, whether a hard
//! sync may start, whether the direction flipped, whether a cycle wrapped)
//! is made here from the outcomes of its comparisons, with a verified
//! contract.
pub mod order;
pub mod cycle;
pub mod hardsync;
pub mod segment;
pub mod through_zero;
