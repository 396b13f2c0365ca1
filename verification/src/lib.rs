//! Pluggable congestion control for a transport engine.
//!
//! A [`controller::Controller`] bounds the bytes a connection may have in
//! flight; a [`controller::ControllerFactory`] builds fresh, independently
//! mutable controllers from shared immutable configuration.  The concrete
//! algorithm here, [`toggle::Toggle`], flips its window between two
//! configured extremes on a fixed timer: a synthetic oscillator meant to
//! exercise the rest of a transport stack under abrupt capacity changes.
//!
//! Timestamps and durations are plain `u64` counts of the engine clock's
//! nanoseconds; only differences and comparisons between them matter.

pub mod controller;
pub mod laws;
pub mod toggle;
