//! A sixth-order IIR filter for feedback control loops.
//!
//! The filter is generic over its sample type (see [`Sample`]). The
//! coefficients and output limits live in an [`IIR6`] record; the input and
//! output history lives in a thirteen-slot buffer owned by the caller, so one
//! record can drive many channels.
pub mod iir;
pub mod laws;
pub mod sample;

pub use iir::{IIR6, Vec13};
pub use sample::Sample;
