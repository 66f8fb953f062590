//! Bitrate convergence for two-pass video re-encoding.
//!
//! The library drives an external two-pass encoder toward an output file
//! whose size lies within a tolerance of a target. It owns the numeric side
//! of the work: the initial bitrate estimate, the size-error adjustment
//! policy, and the control loop expressed as a state machine that a thin
//! driver executes by running encoder passes and reporting their results.
//!
//! All quantities are integers: file sizes in bytes, durations in
//! milliseconds, bitrates in bits per second.

pub mod bitrate;
pub mod controller;
