//! The magnetometer of the LSM9DS1.

use crate::bus::{lemma_trace_grows, lemma_trace_push, DelayProvider, Platform, Transport};
use crate::sensor::imu::lsm9ds1::model::{
    axis_measurement, boot_sequence, control_read, field_measurement, magnetometer_calibration,
    MAGNETOMETER_CONTINUOUS, MAGNETOMETER_RANGE_GAUSS,
};
use crate::sensor::imu::lsm9ds1::registers::MagnetometerRM;
use crate::sensor::imu::lsm9ds1::{Axis, LSM9DS1, LSM9DS1_MAG_ADDRESS};
use crate::sensor::imu::Magnetometer;
use crate::sensor::{SensorError, SensorState};
use vstd::prelude::*;

verus! {

impl LSM9DS1 {
    /// Switches the magnetometer to continuous conversion and checks that
    /// the device took the setting.
    pub fn boot_magnetometer<T: Transport, D: DelayProvider>(
        &mut self,
        hw: &mut Platform<T, D>,
    ) -> (r: Result<(), ()>)
        ensures
            final(hw).extends(old(hw)),
            boot_sequence(
                old(self)@,
                LSM9DS1_MAG_ADDRESS,
                MagnetometerRM::CtrlReg3M.address(),
                MAGNETOMETER_CONTINUOUS,
                final(hw).since(old(hw)),
                final(self)@,
                r,
            ),
    {
        proof {
            use_type_invariant(&*self);
        }
        // Continuous-conversion mode: see the operating modes of CTRL_REG3_M.
        let mode: u8 = MAGNETOMETER_CONTINUOUS;
        self.boot(hw, self.m_addr, MagnetometerRM::CtrlReg3M.address(), mode)
    }

    /// The current value of the magnetometer's third control register.
    pub fn read_ctrl_reg3_m<T: Transport, D: DelayProvider>(
        &mut self,
        hw: &mut Platform<T, D>,
    ) -> (r: Result<u8, ()>)
        ensures
            final(hw).extends(old(hw)),
            control_read(
                old(self)@,
                LSM9DS1_MAG_ADDRESS,
                MagnetometerRM::CtrlReg3M.address(),
                final(hw).since(old(hw)),
                final(self)@,
                r,
            ),
    {
        proof {
            use_type_invariant(&*self);
        }
        self.read_control(hw, self.m_addr, MagnetometerRM::CtrlReg3M.address())
    }

    /// Takes the current reading of the magnetometer as its offset.
    pub fn calibrate_magnetometer<T: Transport, D: DelayProvider>(
        &mut self,
        hw: &mut Platform<T, D>,
    ) -> (r: Result<(), ()>)
        ensures
            final(hw).extends(old(hw)),
            magnetometer_calibration(old(self)@, final(hw).since(old(hw)), final(self)@, r),
    {
        proof {
            use_type_invariant(&*self);
        }
        // Two registers for each axis, in one burst.
        let mut rx_buffer: [u8; 6] = [0; 6];
        let res = hw.read_registers(self.m_addr, MagnetometerRM::OutXLM.address(), &mut rx_buffer);
        proof {
            lemma_trace_push(old(hw).trace(), hw.trace().last());
        }
        if res.is_err() {
            self.state = SensorState::Error(SensorError::FailedToCalibrate);
            return Err(());
        }
        let xl = rx_buffer[0];
        let xh = rx_buffer[1];
        let yl = rx_buffer[2];
        let yh = rx_buffer[3];
        let zl = rx_buffer[4];
        let zh = rx_buffer[5];

        let x_offset = self.twos_complement(xh, xl);
        let y_offset = self.twos_complement(yh, yl);
        let z_offset = self.twos_complement(zh, zl);

        self.calibration_info.magnetometer.x_offset = x_offset as i32;
        self.calibration_info.magnetometer.y_offset = y_offset as i32;
        self.calibration_info.magnetometer.z_offset = z_offset as i32;
        Ok(())
    }

    /// The field along `axis`: the raw reading less the offset of the
    /// axis, divided by the full-scale range and rounded towards zero.
    pub fn read_raw_magnetometer_axis<T: Transport, D: DelayProvider>(
        &mut self,
        hw: &mut Platform<T, D>,
        axis: Axis,
    ) -> (r: Result<i32, ()>)
        ensures
            final(hw).extends(old(hw)),
            axis_measurement(old(self)@, axis, final(hw).since(old(hw)), final(self)@, r),
    {
        proof {
            use_type_invariant(&*self);
        }
        let range = MAGNETOMETER_RANGE_GAUSS;

        let mut rx_buffer: [u8; 2] = [0; 2];
        let addr: u8 = match axis {
            Axis::X => MagnetometerRM::OutXLM.address(),
            Axis::Y => MagnetometerRM::OutYLM.address(),
            Axis::Z => MagnetometerRM::OutZLM.address(),
        };

        // The device sends the low byte first.
        let res = hw.read_registers(self.m_addr, addr, &mut rx_buffer);
        proof {
            lemma_trace_push(old(hw).trace(), hw.trace().last());
        }
        if res.is_err() {
            self.state = SensorState::Error(SensorError::TransportFailure);
            return Err(());
        }
        let high = rx_buffer[1];
        let low = rx_buffer[0];
        let result = self.twos_complement(high, low);

        let correction_value = match axis {
            Axis::X => self.calibration_info.magnetometer.x_offset,
            Axis::Y => self.calibration_info.magnetometer.y_offset,
            Axis::Z => self.calibration_info.magnetometer.z_offset,
        };

        Ok((result as i32 - correction_value) / range)
    }

    /// The field along the x axis.
    pub fn read_magnetometer_x<T: Transport, D: DelayProvider>(
        &mut self,
        hw: &mut Platform<T, D>,
    ) -> (r: Result<i32, ()>)
        ensures
            final(hw).extends(old(hw)),
            axis_measurement(old(self)@, Axis::X, final(hw).since(old(hw)), final(self)@, r),
    {
        self.read_raw_magnetometer_axis(hw, Axis::X)
    }

    /// The field along the y axis.
    pub fn read_magnetometer_y<T: Transport, D: DelayProvider>(
        &mut self,
        hw: &mut Platform<T, D>,
    ) -> (r: Result<i32, ()>)
        ensures
            final(hw).extends(old(hw)),
            axis_measurement(old(self)@, Axis::Y, final(hw).since(old(hw)), final(self)@, r),
    {
        self.read_raw_magnetometer_axis(hw, Axis::Y)
    }

    /// The z component of a field measurement.
    ///
    /// It is read from the x axis, not from the z axis: what is returned is
    /// the field along x. See `component_axis`.
    pub fn read_magnetometer_z<T: Transport, D: DelayProvider>(
        &mut self,
        hw: &mut Platform<T, D>,
    ) -> (r: Result<i32, ()>)
        ensures
            final(hw).extends(old(hw)),
            axis_measurement(old(self)@, Axis::X, final(hw).since(old(hw)), final(self)@, r),
    {
        self.read_raw_magnetometer_axis(hw, Axis::X)
    }
}

impl Magnetometer for LSM9DS1 {
    fn read_magnetometer<T: Transport, D: DelayProvider>(
        &mut self,
        hw: &mut Platform<T, D>,
    ) -> (r: Result<(i32, i32, i32), ()>)
        ensures
            field_measurement(old(self)@, final(hw).since(old(hw)), final(self)@, r),
    {
        let ghost t0 = hw.trace();
        let x = match self.read_magnetometer_x(hw) {
            Ok(x) => x,
            Err(_) => {
                return Err(());
            },
        };
        let ghost t1 = hw.trace();
        let y = match self.read_magnetometer_y(hw) {
            Ok(y) => y,
            Err(_) => {
                proof {
                    lemma_trace_grows(t0, t1, hw.trace());
                }
                return Err(());
            },
        };
        let ghost t2 = hw.trace();
        proof {
            lemma_trace_grows(t0, t1, t2);
        }
        let z = match self.read_magnetometer_z(hw) {
            Ok(z) => z,
            Err(_) => {
                proof {
                    lemma_trace_grows(t0, t2, hw.trace());
                }
                return Err(());
            },
        };
        proof {
            lemma_trace_grows(t0, t2, hw.trace());
        }
        Ok((x, y, z))
    }
}

} // verus!
