//! Verified core of a power-telemetry metrics exporter.
//!
//! The library keeps a small set of named metrics — instantaneous system
//! power, cumulative system energy, and DC input power — and integrates
//! instantaneous power readings into cumulative energy over time. All
//! quantities are held as integers in fixed units (milliwatts, milliseconds,
//! microjoules) so that the accumulation arithmetic is exact and verified.
//!
//! Reading the hardware sensor, registering the metrics with an exporter, and
//! serving them over HTTP are left to the surrounding process, which hands
//! this library plain values and mirrors its state outward.

pub mod driver;
pub mod gauges;
