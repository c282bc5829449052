//! Barometric pressure and temperature sensors.

pub mod bmp180;

use crate::bus::{DelayProvider, Platform, Transport};
use crate::sensor::Sensor;
use vstd::prelude::*;

verus! {

/// What a barometer offers besides the lifecycle of a [`Sensor`].
pub trait Barometer: Sensor {
    /// The pressure that `pressure` returns.
    spec fn stored_pressure(&self) -> i32;

    /// The temperature that `temperature` returns.
    spec fn stored_temperature(&self) -> i32;

    /// Measures the pressure and stores it.
    fn read_pressure(&mut self) -> (p: i32)
        ensures
            final(self).stored_pressure() == p,
            final(self).stored_temperature() == old(self).stored_temperature(),
            final(self).state() == old(self).state(),
    ;

    /// Measures the temperature, in whole degrees Celsius, and stores it.
    fn read_temperature<T: Transport, D: DelayProvider>(
        &mut self,
        hw: &mut Platform<T, D>,
    ) -> (r: Result<i32, ()>)
        ensures
            final(hw).extends(old(hw)),
            final(self).stored_pressure() == old(self).stored_pressure(),
            match r {
                Ok(t) => final(self).stored_temperature() == t && final(self).state() == old(self).state(),
                Err(_) => final(self).stored_temperature() == old(self).stored_temperature()
                    && final(self).state() is Error,
            },
    ;

    /// The pressure measured last, 0 before the first measurement.
    fn pressure(&self) -> (p: i32)
        ensures
            p == self.stored_pressure(),
    ;

    /// The temperature measured last, 0 before the first measurement.
    fn temperature(&self) -> (t: i32)
        ensures
            t == self.stored_temperature(),
    ;
}

} // verus!
