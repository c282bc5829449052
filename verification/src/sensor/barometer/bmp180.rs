//! Driver for the BMP180 barometric pressure and temperature sensor.

pub mod model;

use crate::bus::{
    lemma_trace_grows, lemma_trace_push, lemma_trace_unchanged, DelayProvider, Platform,
    Transport,
};
use crate::sensor::barometer::bmp180::model::{
    calibration, coefficient_read, compensated_temperature, identity_check, initialization,
    temperature_measurement, Bmp180Model,
};
use crate::sensor::barometer::Barometer;
use crate::sensor::decode::big_endian_i16;
use crate::sensor::{Sensor, SensorError, SensorState};
use vstd::prelude::*;

verus! {

/// The bus address of the device.
pub const BMP180_ADDRESS: u8 = 0x77;

/// What the chip-id register of a BMP180 holds.
pub const BMP180_CHIP_ID: u8 = 0x55;

/// Written to the control register, it starts a temperature conversion.
pub const BMP180_START_TEMPERATURE: u8 = 0x2E;

/// How long a temperature conversion takes, in milliseconds.
pub const BMP180_CONVERSION_MS: u32 = 5;

/// The measurements taken last.
#[derive(Debug, Clone, Copy, PartialEq, Eq, Structural)]
pub struct BmpData {
    pub temperature: i32,
    pub pressure: i32,
}

impl BmpData {
    /// No measurement yet: both values are 0.
    pub fn new() -> (data: Self)
        ensures
            data == (BmpData { temperature: 0, pressure: 0 }),
    {
        BmpData { temperature: 0, pressure: 0 }
    }
}

/// Where the registers of the device are.
#[derive(Debug, Clone, Copy, PartialEq, Eq, Structural)]
pub struct RegisterMap {
    pub reg_id_addr: u8,
    pub ac5_msb_addr: u8,
    pub ac6_msb_addr: u8,
    pub mc_msb_addr: u8,
    pub md_msb_addr: u8,
    pub ctrl_meas_addr: u8,
    pub meas_out_lsb_addr: u8,
    pub meas_out_msb_addr: u8,
}

/// The register map of the BMP180, from its datasheet.
pub open spec fn bmp180_registers() -> RegisterMap {
    RegisterMap {
        reg_id_addr: 0xD0,
        ac5_msb_addr: 0xB2,
        ac6_msb_addr: 0xB4,
        mc_msb_addr: 0xBC,
        md_msb_addr: 0xBE,
        ctrl_meas_addr: 0xF4,
        meas_out_lsb_addr: 0xF7,
        meas_out_msb_addr: 0xF6,
    }
}

/// The factory calibration of one device, as far as the temperature needs it.
#[derive(Debug, Clone, Copy, PartialEq, Eq, Structural)]
pub struct Coeffs {
    pub ac5: i16,
    pub ac6: i16,
    pub mc: i16,
    pub md: i16,
}

impl Coeffs {
    /// No coefficient of a working device is zero.
    pub open spec fn all_nonzero(self) -> bool {
        self.ac5 != 0 && self.ac6 != 0 && self.mc != 0 && self.md != 0
    }
}

/// Converts a raw temperature reading with the coefficients of the device.
/// Returns `None` where the formula would divide by zero.
pub fn compensate_temperature(raw: i16, coeffs: &Coeffs) -> (t: Option<i32>)
    ensures
        match t {
            Some(v) => compensated_temperature(raw, *coeffs) == Some(v as int),
            None => compensated_temperature(raw, *coeffs) is None,
        },
{
    let difference: i32 = raw as i32 - coeffs.ac6 as i32;
    let factor: i32 = coeffs.ac5 as i32;
    assert(-2147483648 <= difference * factor <= 2147483647) by (nonlinear_arith)
        requires
            -65535 <= difference <= 65535,
            -32768 <= factor <= 32767,
    ;
    let product: i32 = difference * factor;
    let x1: i32 = product >> 15;
    assert(product >> 15 == product / 32768) by (bit_vector);
    let scaled: i32 = (coeffs.mc as i32) << 11;
    let mc: i32 = coeffs.mc as i32;
    assert(-32768 <= mc <= 32767 ==> (mc << 11) == mc * 2048) by (bit_vector);
    match scaled.checked_div(x1 + coeffs.md as i32) {
        None => None,
        Some(x2) => {
            let b5: i32 = x1 + x2;
            let rounded: i32 = b5 + 8;
            assert(rounded >> 4 == rounded / 16) by (bit_vector);
            Some((rounded >> 4) / 10)
        },
    }
}

/// A BMP180 on the bus.
pub struct BMP180 {
    calib_coeffs: Coeffs,
    addr: u8,
    register_map: RegisterMap,
    state: SensorState,
    data: BmpData,
}

impl View for BMP180 {
    type V = Bmp180Model;

    closed spec fn view(&self) -> Bmp180Model {
        Bmp180Model { state: self.state, coefficients: self.calib_coeffs, data: self.data }
    }
}

impl BMP180 {
    #[verifier::type_invariant]
    closed spec fn well_formed(&self) -> bool {
        &&& self.addr == BMP180_ADDRESS
        &&& self.register_map == bmp180_registers()
        &&& self.state == SensorState::Ready ==> self.calib_coeffs.all_nonzero()
    }

    /// A driver that has not talked to its device yet.
    pub fn new() -> (driver: Self)
        ensures
            driver@ == (Bmp180Model {
                state: SensorState::Initial,
                coefficients: Coeffs { ac5: 0, ac6: 0, mc: 0, md: 0 },
                data: BmpData { temperature: 0, pressure: 0 },
            }),
    {
        BMP180 {
            calib_coeffs: Coeffs { ac5: 0, ac6: 0, mc: 0, md: 0 },
            addr: 0x77,
            register_map: RegisterMap {
                reg_id_addr: 0xD0,
                ac5_msb_addr: 0xB2,
                ac6_msb_addr: 0xB4,
                mc_msb_addr: 0xBC,
                md_msb_addr: 0xBE,
                ctrl_meas_addr: 0xF4,
                meas_out_lsb_addr: 0xF7,
                meas_out_msb_addr: 0xF6,
            },
            state: SensorState::Initial,
            data: BmpData::new(),
        }
    }

    /// The calibration coefficients read last. Those of a driver that is
    /// `Ready` are all other than zero.
    pub fn calib_coeffs(&self) -> (c: Coeffs)
        ensures
            c == self@.coefficients,
            self@.state == SensorState::Ready ==> c.all_nonzero(),
    {
        proof {
            use_type_invariant(self);
        }
        self.calib_coeffs
    }

    /// The bus address of the device.
    pub fn addr(&self) -> (a: u8)
        ensures
            a == BMP180_ADDRESS,
    {
        proof {
            use_type_invariant(self);
        }
        self.addr
    }

    /// The register map of the device.
    pub fn register_map(&self) -> (map: &RegisterMap)
        ensures
            *map == bmp180_registers(),
    {
        proof {
            use_type_invariant(self);
        }
        &self.register_map
    }

    /// Asks the device for its identity, to learn whether it is powered and
    /// reachable.
    pub fn sanity_check<T: Transport, D: DelayProvider>(&mut self, hw: &mut Platform<T, D>) -> (found: bool)
        ensures
            final(hw).extends(old(hw)),
            identity_check(old(self)@, final(hw).since(old(hw)), final(self)@, found),
    {
        proof {
            use_type_invariant(&*self);
        }
        let mut rx_buffer: [u8; 1] = [0; 1];
        let answered = hw.read_registers(self.addr, self.register_map.reg_id_addr, &mut rx_buffer);
        proof {
            lemma_trace_push(old(hw).trace(), hw.trace().last());
        }
        if answered.is_ok() && rx_buffer[0] == BMP180_CHIP_ID {
            true
        } else {
            self.state = SensorState::Error(SensorError::NotFound);
            false
        }
    }

    /// Reads the calibration coefficient stored at `addr`.
    pub fn read_calibration_coefficient<T: Transport, D: DelayProvider>(
        &mut self,
        hw: &mut Platform<T, D>,
        addr: u8,
    ) -> (r: Result<i16, ()>)
        ensures
            final(hw).extends(old(hw)),
            coefficient_read(old(self)@, addr, final(hw).since(old(hw)), final(self)@, r),
    {
        proof {
            use_type_invariant(&*self);
        }
        let mut rx_buffer: [u8; 2] = [0; 2];
        let answered = hw.read_registers(self.addr, addr, &mut rx_buffer);
        proof {
            lemma_trace_push(old(hw).trace(), hw.trace().last());
        }
        if answered.is_err() {
            self.state = SensorState::Error(SensorError::FailedToCalibrate);
            return Err(());
        }
        let rx_word = big_endian_i16(rx_buffer[0], rx_buffer[1]);
        if rx_word == 0 {
            self.state = SensorState::Error(SensorError::FailedToCalibrate);
            Err(())
        } else {
            Ok(rx_word)
        }
    }
}

impl Sensor for BMP180 {
    open spec fn state(&self) -> SensorState {
        self@.state
    }

    fn init<T: Transport, D: DelayProvider>(&mut self, hw: &mut Platform<T, D>) -> (r: Result<(), ()>)
        ensures
            initialization(old(self)@, final(hw).since(old(hw)), final(self)@, r),
    {
        if let SensorState::Error(_) = self.state {
            proof {
                lemma_trace_unchanged(hw.trace());
            }
            return Err(());
        }
        proof {
            use_type_invariant(&*self);
        }
        self.state = SensorState::Startup;
        let is_discovered = self.sanity_check(hw);
        if !is_discovered {
            return Err(());
        }
        let ghost identified = hw.trace();
        let r = self.calibrate(hw);
        proof {
            lemma_trace_grows(old(hw).trace(), identified, hw.trace());
            let events = hw.since(old(hw));
            assert(events.skip(1) =~= hw.trace().skip(identified.len() as int));
        }
        r
    }

    fn calibrate<T: Transport, D: DelayProvider>(&mut self, hw: &mut Platform<T, D>) -> (r: Result<(), ()>)
        ensures
            calibration(old(self)@, final(hw).since(old(hw)), final(self)@, r),
    {
        if let SensorState::Error(_) = self.state {
            proof {
                lemma_trace_unchanged(hw.trace());
            }
            return Err(());
        }
        proof {
            use_type_invariant(&*self);
        }
        let ghost t0 = hw.trace();
        self.state = SensorState::Calibrating;

        let register = self.register_map.ac5_msb_addr;
        let read = self.read_calibration_coefficient(hw, register);
        let ghost t1 = hw.trace();
        match read {
            Ok(word) => {
                proof {
                    use_type_invariant(&*self);
                }
                self.calib_coeffs.ac5 = word;
            },
            Err(_) => {
                return Err(());
            },
        }

        let register = self.register_map.ac6_msb_addr;
        let read = self.read_calibration_coefficient(hw, register);
        let ghost t2 = hw.trace();
        proof {
            lemma_trace_grows(t0, t1, t2);
        }
        match read {
            Ok(word) => {
                proof {
                    use_type_invariant(&*self);
                }
                self.calib_coeffs.ac6 = word;
            },
            Err(_) => {
                return Err(());
            },
        }

        let register = self.register_map.mc_msb_addr;
        let read = self.read_calibration_coefficient(hw, register);
        let ghost t3 = hw.trace();
        proof {
            lemma_trace_grows(t0, t2, t3);
        }
        match read {
            Ok(word) => {
                proof {
                    use_type_invariant(&*self);
                }
                self.calib_coeffs.mc = word;
            },
            Err(_) => {
                return Err(());
            },
        }

        let register = self.register_map.md_msb_addr;
        let read = self.read_calibration_coefficient(hw, register);
        proof {
            lemma_trace_grows(t0, t3, hw.trace());
        }
        match read {
            Ok(word) => {
                proof {
                    use_type_invariant(&*self);
                }
                self.calib_coeffs.md = word;
            },
            Err(_) => {
                return Err(());
            },
        }

        proof {
            use_type_invariant(&*self);
        }
        self.state = SensorState::Ready;
        Ok(())
    }

    fn sensor_state(&self) -> (s: &SensorState) {
        &self.state
    }
}

impl Barometer for BMP180 {
    open spec fn stored_pressure(&self) -> i32 {
        self@.data.pressure
    }

    open spec fn stored_temperature(&self) -> i32 {
        self@.data.temperature
    }

    /// No pressure algorithm is implemented: the placeholder 0 is stored
    /// and returned, and the device is not asked.
    fn read_pressure(&mut self) -> (p: i32)
        ensures
            p == 0,
            final(self)@ == (Bmp180Model {
                data: BmpData { pressure: 0, ..old(self)@.data },
                ..old(self)@
            }),
    {
        proof {
            use_type_invariant(&*self);
        }
        self.data.pressure = 0;
        0
    }

    fn read_temperature<T: Transport, D: DelayProvider>(
        &mut self,
        hw: &mut Platform<T, D>,
    ) -> (r: Result<i32, ()>)
        ensures
            temperature_measurement(old(self)@, final(hw).since(old(hw)), final(self)@, r),
    {
        proof {
            use_type_invariant(&*self);
        }
        let ghost t0 = hw.trace();
        let started = hw.write_register(
            self.addr,
            self.register_map.ctrl_meas_addr,
            BMP180_START_TEMPERATURE,
        );
        let ghost t1 = hw.trace();
        proof {
            lemma_trace_push(t0, t1.last());
        }
        if started.is_err() {
            self.state = SensorState::Error(SensorError::TransportFailure);
            return Err(());
        }
        hw.delay_ms(BMP180_CONVERSION_MS);
        let ghost t2 = hw.trace();
        proof {
            lemma_trace_push(t1, t2.last());
            lemma_trace_grows(t0, t1, t2);
        }

        let mut rx_buffer: [u8; 1] = [0; 1];
        let answered = hw.read_registers(
            self.addr,
            self.register_map.meas_out_msb_addr,
            &mut rx_buffer,
        );
        let ghost t3 = hw.trace();
        proof {
            lemma_trace_push(t2, t3.last());
            lemma_trace_grows(t0, t2, t3);
        }
        if answered.is_err() {
            self.state = SensorState::Error(SensorError::TransportFailure);
            return Err(());
        }
        let msb = rx_buffer[0];

        let answered = hw.read_registers(
            self.addr,
            self.register_map.meas_out_lsb_addr,
            &mut rx_buffer,
        );
        proof {
            lemma_trace_push(t3, hw.trace().last());
            lemma_trace_grows(t0, t3, hw.trace());
        }
        if answered.is_err() {
            self.state = SensorState::Error(SensorError::TransportFailure);
            return Err(());
        }
        let lsb = rx_buffer[0];

        let rx_word = big_endian_i16(msb, lsb);
        match compensate_temperature(rx_word, &self.calib_coeffs) {
            Some(t) => {
                self.data.temperature = t;
                Ok(t)
            },
            None => {
                self.state = SensorState::Error(SensorError::FailedToCalibrate);
                Err(())
            },
        }
    }

    fn pressure(&self) -> (p: i32) {
        self.data.pressure
    }

    fn temperature(&self) -> (t: i32) {
        self.data.temperature
    }
}

} // verus!
