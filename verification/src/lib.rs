//! Scoped timing of code against the browser's labeled console measurements.
//!
//! A [`timer::ConsoleTimer`] starts a named `console.time` measurement when it
//! is constructed and ends it, with `console.timeEnd`, when it is dropped, so
//! that the two calls are always paired no matter how the owning scope exits.
//! The [`model`] module states and proves the pairing discipline over an
//! explicit record of the signals a measurement facility observes.

pub mod model;
pub mod timer;
