//! A phase-continuous sine oscillator for block-based audio rendering.
//!
//! The oscillator fills one buffer of samples per call, carries its phase
//! across calls, and applies a requested frequency change only at the next
//! cycle boundary of the frequency being rendered — an ascending zero
//! crossing — so a change never produces an audible click.
//!
//! All state and arithmetic are exact: rates and frequencies are positive
//! rationals ([`Ratio`]), the phase is an integer count of grid units, and
//! each rendered sample is the exact number of elapsed waveform cycles
//! ([`Turn`]). The audible value of a sample is `sin(2*pi*num/den)` of its
//! turn; evaluating the sine is the caller's one floating-point step.
//!
//! The contracts on [`EBUR128Compressor`] pin down every sample and every
//! state change; the laws in [`laws`] prove the properties that make the
//! oscillator fit for streaming: rendering one full cycle passes exactly
//! through its zero crossings and extrema, two short blocks sound exactly
//! like one long one, a reset reproduces a fresh instance, and requesting
//! the frequency already playing changes nothing.

pub mod cmp;
pub mod laws;
pub mod ratio;

pub use crate::cmp::EBUR128Compressor;
pub use crate::cmp::Turn;
pub use crate::ratio::Ratio;
