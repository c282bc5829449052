//! Driver for the LSM9DS1 inertial sensor: an accelerometer, a gyroscope
//! and a magnetometer in one package.

pub mod accelerometer;
pub mod gyroscope;
pub mod magnetometer;
pub mod model;
pub mod registers;

use crate::bus::{
    lemma_trace_grows, lemma_trace_push, lemma_trace_unchanged, DelayProvider, Platform,
    Transport,
};
use crate::sensor::decode::{little_endian_u16, signed_word};
use crate::sensor::imu::lsm9ds1::model::{
    boot_sequence, burst_measurement, calibration, control_read, identity_check,
    initialization, write_verified, Lsm9ds1Model,
};
use crate::sensor::imu::lsm9ds1::registers::MagnetometerRM;
use crate::sensor::{Sensor, SensorError, SensorState};
use vstd::prelude::*;

verus! {

/// The bus address of the magnetometer.
pub const LSM9DS1_MAG_ADDRESS: u8 = 0x1E;

/// The bus address of the accelerometer and the gyroscope.
pub const LSM9DS1_AG_ADDRESS: u8 = 0x6B;

/// What the who-am-i register of the magnetometer holds.
pub const LSM9DS1_MAG_ID: u8 = 0x3D;

/// An axis of one of the three sensors.
#[derive(Debug, Clone, Copy, PartialEq, Eq, Structural)]
pub enum Axis {
    X,
    Y,
    Z,
}

/// An acceleration along the three axes.
#[derive(Debug, Clone, Copy, PartialEq, Eq, Structural)]
pub struct ImuAccelerationData {
    pub x: i32,
    pub y: i32,
    pub z: i32,
}

/// The measurements kept by a driver.
#[derive(Debug, Clone, Copy, PartialEq, Eq, Structural)]
pub struct ImuData {
    pub acceleration: ImuAccelerationData,
}

impl ImuData {
    /// No measurement yet: all values are 0.
    pub fn new() -> (data: Self)
        ensures
            data == (ImuData { acceleration: ImuAccelerationData { x: 0, y: 0, z: 0 } }),
    {
        ImuData { acceleration: ImuAccelerationData { x: 0, y: 0, z: 0 } }
    }
}

/// The raw reading of the magnetometer at the time of its calibration. It
/// is taken off every later reading.
#[derive(Debug, Clone, Copy, PartialEq, Eq, Structural)]
pub struct MagnetometerCalibration {
    pub x_offset: i32,
    pub y_offset: i32,
    pub z_offset: i32,
}

/// The calibration of the device: that of its magnetometer.
#[derive(Debug, Clone, Copy, PartialEq, Eq, Structural)]
pub struct CalibrationInfo {
    pub magnetometer: MagnetometerCalibration,
}

impl CalibrationInfo {
    /// No calibration yet: all offsets are 0.
    pub fn new() -> (info: Self)
        ensures
            info == (CalibrationInfo {
                magnetometer: MagnetometerCalibration { x_offset: 0, y_offset: 0, z_offset: 0 },
            }),
    {
        CalibrationInfo {
            magnetometer: MagnetometerCalibration { x_offset: 0, y_offset: 0, z_offset: 0 },
        }
    }
}

/// An LSM9DS1 on the bus.
pub struct LSM9DS1 {
    m_addr: u8,
    addr: u8,
    state: SensorState,
    data: ImuData,
    calibration_info: CalibrationInfo,
}

impl View for LSM9DS1 {
    type V = Lsm9ds1Model;

    closed spec fn view(&self) -> Lsm9ds1Model {
        Lsm9ds1Model { state: self.state, calibration: self.calibration_info, data: self.data }
    }
}

/// Whether a number is a reading of 16 bits.
pub open spec fn is_reading(n: i32) -> bool {
    -32768 <= n <= 32767
}

impl LSM9DS1 {
    #[verifier::type_invariant]
    closed spec fn well_formed(&self) -> bool {
        &&& self.m_addr == LSM9DS1_MAG_ADDRESS
        &&& self.addr == LSM9DS1_AG_ADDRESS
        &&& is_reading(self.calibration_info.magnetometer.x_offset)
        &&& is_reading(self.calibration_info.magnetometer.y_offset)
        &&& is_reading(self.calibration_info.magnetometer.z_offset)
    }

    /// A driver that has not talked to its device yet.
    pub fn new() -> (driver: Self)
        ensures
            driver@ == (Lsm9ds1Model {
                state: SensorState::Initial,
                calibration: CalibrationInfo {
                    magnetometer: MagnetometerCalibration { x_offset: 0, y_offset: 0, z_offset: 0 },
                },
                data: ImuData { acceleration: ImuAccelerationData { x: 0, y: 0, z: 0 } },
            }),
    {
        LSM9DS1 {
            m_addr: 0x1E,
            addr: 0x6B,
            state: SensorState::Initial,
            data: ImuData::new(),
            calibration_info: CalibrationInfo::new(),
        }
    }

    /// The bus address of the magnetometer.
    pub fn m_addr(&self) -> (a: u8)
        ensures
            a == LSM9DS1_MAG_ADDRESS,
    {
        proof {
            use_type_invariant(self);
        }
        self.m_addr
    }

    /// The bus address of the accelerometer and the gyroscope.
    pub fn addr(&self) -> (a: u8)
        ensures
            a == LSM9DS1_AG_ADDRESS,
    {
        proof {
            use_type_invariant(self);
        }
        self.addr
    }

    /// The offsets taken at the last calibration, each one a reading of 16 bits.
    pub fn calibration_info(&self) -> (info: CalibrationInfo)
        ensures
            info == self@.calibration,
            is_reading(info.magnetometer.x_offset),
            is_reading(info.magnetometer.y_offset),
            is_reading(info.magnetometer.z_offset),
    {
        proof {
            use_type_invariant(self);
        }
        self.calibration_info
    }

    /// The measurements kept by the driver.
    pub fn data(&self) -> (data: ImuData)
        ensures
            data == self@.data,
    {
        self.data
    }

    /// Asks the magnetometer for its identity, to learn whether the device
    /// is powered and reachable.
    pub fn sanity_check<T: Transport, D: DelayProvider>(&mut self, hw: &mut Platform<T, D>) -> (found: bool)
        ensures
            final(hw).extends(old(hw)),
            identity_check(old(self)@, final(hw).since(old(hw)), final(self)@, found),
    {
        proof {
            use_type_invariant(&*self);
        }
        let mut rx_buffer: [u8; 1] = [0; 1];
        let res = hw.read_registers(self.m_addr, MagnetometerRM::WhoAmI.address(), &mut rx_buffer);
        proof {
            lemma_trace_push(old(hw).trace(), hw.trace().last());
        }
        // A failed read means that the device was not found: a wrong bus
        // address, or no power.
        match res {
            Ok(_) => {},
            Err(_) => {
                self.state = SensorState::Error(SensorError::NotFound);
                return false;
            },
        }
        if rx_buffer[0] == LSM9DS1_MAG_ID {
            true
        } else {
            self.state = SensorState::Error(SensorError::NotFound);
            false
        }
    }

    /// The signed number that two bytes of a reading stand for.
    pub fn twos_complement(&self, high: u8, low: u8) -> (value: i16)
        ensures
            value == signed_word(high, low),
    {
        let bytes: [u8; 2] = [low, high];
        let combined: u16 = little_endian_u16(&bytes);
        // The cast keeps the bits: a pattern with the top bit set becomes
        // the negative number it stands for.
        assert(combined as i16 == (if combined >= 32768 {
            combined - 65536
        } else {
            combined as int
        })) by (bit_vector);
        combined as i16
    }

    /// Reads the control register `register` of the sensor at `address`.
    pub(crate) fn read_control<T: Transport, D: DelayProvider>(
        &mut self,
        hw: &mut Platform<T, D>,
        address: u8,
        register: u8,
    ) -> (r: Result<u8, ()>)
        ensures
            final(hw).extends(old(hw)),
            control_read(old(self)@, address, register, final(hw).since(old(hw)), final(self)@, r),
    {
        proof {
            use_type_invariant(&*self);
        }
        let mut rx_dat: [u8; 1] = [0; 1];
        let res = hw.read_registers(address, register, &mut rx_dat);
        proof {
            lemma_trace_push(old(hw).trace(), hw.trace().last());
        }
        match res {
            Ok(_) => Ok(rx_dat[0]),
            Err(_) => {
                self.state = SensorState::Error(SensorError::TransportFailure);
                Err(())
            },
        }
    }

    /// Writes `value` to a control register and checks that it took effect.
    pub(crate) fn boot<T: Transport, D: DelayProvider>(
        &mut self,
        hw: &mut Platform<T, D>,
        address: u8,
        register: u8,
        value: u8,
    ) -> (r: Result<(), ()>)
        ensures
            final(hw).extends(old(hw)),
            boot_sequence(
                old(self)@,
                address,
                register,
                value,
                final(hw).since(old(hw)),
                final(self)@,
                r,
            ),
    {
        let ghost t0 = hw.trace();
        let initial_value = match self.read_control(hw, address, register) {
            Ok(value) => value,
            Err(_) => {
                return Err(());
            },
        };
        let ghost t1 = hw.trace();
        let res = hw.write_register(address, register, value);
        let ghost t2 = hw.trace();
        proof {
            use_type_invariant(&*self);
            lemma_trace_push(t1, t2.last());
            lemma_trace_grows(t0, t1, t2);
        }
        if res.is_err() {
            self.state = SensorState::Error(SensorError::TransportFailure);
            return Err(());
        }
        let final_value = match self.read_control(hw, address, register) {
            Ok(value) => value,
            Err(_) => {
                proof {
                    lemma_trace_grows(t0, t2, hw.trace());
                }
                return Err(());
            },
        };
        proof {
            use_type_invariant(&*self);
            lemma_trace_grows(t0, t2, hw.trace());
        }
        if boot_verified(initial_value, value, final_value) {
            Ok(())
        } else {
            self.state = SensorState::Error(SensorError::FailedToCalibrate);
            Err(())
        }
    }
}

impl LSM9DS1 {
    /// Reads the three axes of the accelerometer or of the gyroscope in one
    /// burst that starts at `register`, and multiplies each reading by `range`.
    pub(crate) fn read_burst<T: Transport, D: DelayProvider>(
        &mut self,
        hw: &mut Platform<T, D>,
        register: u8,
        range: i32,
    ) -> (r: Result<(i32, i32, i32), ()>)
        requires
            0 < range <= 65535,
        ensures
            final(hw).extends(old(hw)),
            burst_measurement(
                old(self)@,
                register,
                range as int,
                final(hw).since(old(hw)),
                final(self)@,
                r,
            ),
    {
        proof {
            use_type_invariant(&*self);
        }
        let mut rx_buffer: [u8; 6] = [0; 6];
        let res = hw.read_registers(self.addr, register, &mut rx_buffer);
        proof {
            lemma_trace_push(old(hw).trace(), hw.trace().last());
        }
        if res.is_err() {
            self.state = SensorState::Error(SensorError::TransportFailure);
            return Err(());
        }
        let x_raw = self.twos_complement(rx_buffer[1], rx_buffer[0]);
        let y_raw = self.twos_complement(rx_buffer[3], rx_buffer[2]);
        let z_raw = self.twos_complement(rx_buffer[5], rx_buffer[4]);
        proof {
            lemma_scaled_reading_fits(x_raw, range);
            lemma_scaled_reading_fits(y_raw, range);
            lemma_scaled_reading_fits(z_raw, range);
        }
        let x = x_raw as i32 * range;
        let y = y_raw as i32 * range;
        let z = z_raw as i32 * range;
        Ok((x, y, z))
    }
}

/// A reading multiplied by a range of at most 16 bits fits in 32 bits.
proof fn lemma_scaled_reading_fits(raw: i16, range: i32)
    by (nonlinear_arith)
    requires
        0 < range <= 65535,
    ensures
        -2147483648 <= raw * range <= 2147483647,
{
}

impl Sensor for LSM9DS1 {
    open spec fn state(&self) -> SensorState {
        self@.state
    }

    fn init<T: Transport, D: DelayProvider>(&mut self, hw: &mut Platform<T, D>) -> (r: Result<(), ()>)
        ensures
            initialization(old(self)@, final(hw).since(old(hw)), final(self)@, r),
    {
        if let SensorState::Error(_) = self.state {
            proof {
                lemma_trace_unchanged(hw.trace());
            }
            return Err(());
        }
        proof {
            use_type_invariant(&*self);
        }
        let ghost t0 = hw.trace();
        self.state = SensorState::Startup;
        let is_discovered = self.sanity_check(hw);
        if !is_discovered {
            return Err(());
        }
        let ghost t1 = hw.trace();
        let booted = self.boot_magnetometer(hw);
        let ghost t2 = hw.trace();
        proof {
            lemma_trace_grows(t0, t1, t2);
            assert(t2.skip(t0.len() as int).skip(1) =~= t2.skip(t1.len() as int));
        }
        if booted.is_err() {
            return Err(());
        }
        let r = self.calibrate(hw);
        proof {
            let t3 = hw.trace();
            lemma_trace_grows(t0, t2, t3);
            let events = t3.skip(t0.len() as int);
            assert(events.subrange(1, 4) =~= t2.skip(t1.len() as int));
            assert(events.skip(4) =~= t3.skip(t2.len() as int));
        }
        r
    }

    fn calibrate<T: Transport, D: DelayProvider>(&mut self, hw: &mut Platform<T, D>) -> (r: Result<(), ()>)
        ensures
            calibration(old(self)@, final(hw).since(old(hw)), final(self)@, r),
    {
        if let SensorState::Error(_) = self.state {
            proof {
                lemma_trace_unchanged(hw.trace());
            }
            return Err(());
        }
        proof {
            use_type_invariant(&*self);
        }
        self.state = SensorState::Calibrating;
        if self.calibrate_magnetometer(hw).is_err() {
            return Err(());
        }
        proof {
            use_type_invariant(&*self);
        }
        self.state = SensorState::Ready;
        Ok(())
    }

    fn sensor_state(&self) -> (s: &SensorState) {
        &self.state
    }
}

/// Decides whether a write to a control register took effect: the
/// register must hold the value written, and must have held another value
/// before the write.
pub fn boot_verified(initial_value: u8, written: u8, final_value: u8) -> (verified: bool)
    ensures
        verified == write_verified(initial_value, written, final_value),
{
    initial_value != final_value && final_value == written
}

} // verus!
