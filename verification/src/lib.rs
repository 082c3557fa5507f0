//! A battery-level notifier core: an edge-triggered threshold evaluator with
//! hysteresis, applied per device and per threshold kind each poll cycle.
//!
//! Charge levels are fractions of a full charge held in per-mille, so a
//! percentage with one decimal place is exact. The surrounding process reads
//! devices, displays alerts and sleeps; everything it decides -- when an alert
//! fires, what it says, and how the warning state moves -- lives here.

pub mod config;
pub mod poll;
pub mod state;
pub mod text;
