//! Watches one configuration file and turns debounced directory events into
//! ordered before/after snapshots of its parsed value.
//!
//! The decisions are verified here: which filesystem events mean that the
//! configuration changed ([`detect`]), what the reload task does with each
//! signal ([`reload`]), and how the watched path is split ([`paths`]).
//! Reading files, watching directories and running the task happen around it.
mod error;
pub mod detect;
pub mod paths;
pub mod reload;

pub use crate::error::Error;
pub use crate::reload::UpdateEvent;
