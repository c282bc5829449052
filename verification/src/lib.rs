//! Synchronous drivers for sensors that share one two-wire serial bus.
//!
//! The drivers never own the bus. Every operation borrows a [`bus::Platform`],
//! which performs the transactions and keeps a ghost trace of them; the
//! contracts of the drivers are stated over that trace.

pub mod bus;
pub mod sensor;
pub mod pwm;
