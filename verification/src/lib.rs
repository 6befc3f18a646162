//! A filter-then-decimate kernel for mono 16-bit PCM sample sequences.
//!
//! The library owns the fixed 91-tap low-pass FIR coefficient table (as exact
//! dyadic rationals), the edge policy for the first filter-length samples, the
//! decimation policy that keeps every second sample, and the saturating
//! quantizer. Real-valued convolution results enter the library as truncated
//! integer values; the library assembles, clamps and decimates them.

pub mod coef;
pub mod driver;
pub mod engine;
pub mod quantizer;
