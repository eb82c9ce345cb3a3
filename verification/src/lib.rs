//! Dynamic-range limiter for streaming audio.
//!
//! A limiter watches the RMS level of a signal over a sliding window and keeps a
//! single gain in step with it: the gain drops at once when the level rises
//! above the threshold (attack) and climbs back towards unity by one
//! multiplicative step per chunk afterwards (release).
//!
//! Everything in this crate works on integers. A sample, a gain or a level is
//! carried as the bit pattern of its IEEE-754 value; the crate keeps the window,
//! orders and clamps such values and takes every decision of the envelope. The
//! arithmetic on the values themselves (the mean of squares, the division, the
//! product) is left to the caller, who hands its results in.

pub mod ieee;
pub mod window;
pub mod envelope;
pub mod config;
pub mod engine;
pub mod limiter;
pub mod rms_limiter;
