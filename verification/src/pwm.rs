//! Pulse-width modulation outputs.

pub mod servo;
