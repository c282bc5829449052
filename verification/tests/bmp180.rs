use multi_mission_library::bus::{DelayProvider, Platform, Transport, TransportError};
use multi_mission_library::sensor::barometer::bmp180::{
    compensate_temperature, BmpData, Coeffs, RegisterMap, BMP180,
};
use multi_mission_library::sensor::barometer::Barometer;
use multi_mission_library::sensor::decode::big_endian_i16;
use multi_mission_library::sensor::{Sensor, SensorError, SensorState};
use std::cell::RefCell;
use std::rc::Rc;

/// One call made on the fake hardware.
#[derive(Debug, Clone, PartialEq)]
enum Call {
    Write(u8, Vec<u8>),
    Read(u8, usize),
    WriteRead(u8, Vec<u8>, usize),
    Delay(u32),
}

/// What a write does to the register it addresses.
#[derive(Debug, Clone, Copy, PartialEq)]
enum WriteEffect {
    Store,
    Ignore,
    StoreInstead(u8),
}

/// A bus with devices that answer from a table of registers.
struct Wire {
    registers: Vec<((u8, u8), u8)>,
    calls: Vec<Call>,
    failing: Vec<usize>,
    transactions: usize,
    effect: WriteEffect,
}

impl Wire {
    fn get(&self, device: u8, register: u8) -> u8 {
        for ((d, r), value) in &self.registers {
            if *d == device && *r == register {
                return *value;
            }
        }
        0
    }

    fn set(&mut self, device: u8, register: u8, value: u8) {
        for ((d, r), held) in self.registers.iter_mut() {
            if *d == device && *r == register {
                *held = value;
                return;
            }
        }
        self.registers.push(((device, register), value));
    }

    fn fails_now(&mut self) -> bool {
        let now = self.transactions;
        self.transactions += 1;
        self.failing.contains(&now)
    }
}

#[derive(Clone)]
struct Bench(Rc<RefCell<Wire>>);

impl Bench {
    fn new(registers: &[((u8, u8), u8)]) -> Self {
        Bench(Rc::new(RefCell::new(Wire {
            registers: registers.to_vec(),
            calls: Vec::new(),
            failing: Vec::new(),
            transactions: 0,
            effect: WriteEffect::Store,
        })))
    }

    fn platform(&self) -> Platform<Bench, Bench> {
        Platform::new(self.clone(), self.clone())
    }

    fn calls(&self) -> Vec<Call> {
        self.0.borrow().calls.clone()
    }

    fn forget_calls(&self) {
        self.0.borrow_mut().calls.clear();
    }

    /// Lets the transaction with this number fail, counted from 0 over all
    /// transactions made on the bus.
    fn fail_transaction(&self, number: usize) {
        self.0.borrow_mut().failing.push(number);
    }

    fn set(&self, device: u8, register: u8, value: u8) {
        self.0.borrow_mut().set(device, register, value);
    }

    fn get(&self, device: u8, register: u8) -> u8 {
        self.0.borrow().get(device, register)
    }

    fn on_write(&self, effect: WriteEffect) {
        self.0.borrow_mut().effect = effect;
    }
}

impl Transport for Bench {
    fn write(&mut self, address: u8, bytes: &[u8]) -> Result<(), TransportError> {
        let mut wire = self.0.borrow_mut();
        wire.calls.push(Call::Write(address, bytes.to_vec()));
        if wire.fails_now() {
            return Err(TransportError);
        }
        for (i, value) in bytes.iter().skip(1).enumerate() {
            let register = bytes[0].wrapping_add(i as u8);
            match wire.effect {
                WriteEffect::Store => wire.set(address, register, *value),
                WriteEffect::Ignore => {}
                WriteEffect::StoreInstead(other) => wire.set(address, register, other),
            }
        }
        Ok(())
    }

    fn read(&mut self, address: u8, buffer: &mut [u8]) -> Result<(), TransportError> {
        let mut wire = self.0.borrow_mut();
        wire.calls.push(Call::Read(address, buffer.len()));
        if wire.fails_now() {
            return Err(TransportError);
        }
        for slot in buffer.iter_mut() {
            *slot = 0;
        }
        Ok(())
    }

    fn write_read(
        &mut self,
        address: u8,
        request: &[u8],
        buffer: &mut [u8],
    ) -> Result<(), TransportError> {
        let mut wire = self.0.borrow_mut();
        wire.calls.push(Call::WriteRead(address, request.to_vec(), buffer.len()));
        if wire.fails_now() {
            // What a failed transaction leaves in the buffer must not be used.
            for slot in buffer.iter_mut() {
                *slot = 0xA5;
            }
            return Err(TransportError);
        }
        for (i, slot) in buffer.iter_mut().enumerate() {
            *slot = wire.get(address, request[0].wrapping_add(i as u8));
        }
        Ok(())
    }
}

impl DelayProvider for Bench {
    fn delay_ms(&mut self, duration: u32) {
        self.0.borrow_mut().calls.push(Call::Delay(duration));
    }
}

const BARO: u8 = 0x77;

fn read(register: u8, length: usize) -> Call {
    Call::WriteRead(BARO, vec![register], length)
}

/// A device with the coefficients of the datasheet's worked example, and
/// the raw temperature of that example in its measurement registers.
fn datasheet_device() -> Bench {
    Bench::new(&[
        ((BARO, 0xD0), 0x55),
        // AC5 = 32757
        ((BARO, 0xB2), 0x7F),
        ((BARO, 0xB3), 0xF5),
        // AC6 = 23153
        ((BARO, 0xB4), 0x5A),
        ((BARO, 0xB5), 0x71),
        // MC = -8711
        ((BARO, 0xBC), 0xDD),
        ((BARO, 0xBD), 0xF9),
        // MD = 2868
        ((BARO, 0xBE), 0x0B),
        ((BARO, 0xBF), 0x34),
        // UT = 27898
        ((BARO, 0xF6), 0x6C),
        ((BARO, 0xF7), 0xFA),
    ])
}

const DATASHEET: Coeffs = Coeffs { ac5: 32757, ac6: 23153, mc: -8711, md: 2868 };

#[test]
fn new_driver_is_initial_and_empty() {
    let driver = BMP180::new();
    assert_eq!(*driver.sensor_state(), SensorState::Initial);
    assert_eq!(driver.calib_coeffs(), Coeffs { ac5: 0, ac6: 0, mc: 0, md: 0 });
    assert_eq!(driver.temperature(), 0);
    assert_eq!(driver.pressure(), 0);
    assert_eq!(BmpData::new(), BmpData { temperature: 0, pressure: 0 });
}

#[test]
fn device_constants_are_those_of_the_datasheet() {
    let driver = BMP180::new();
    assert_eq!(driver.addr(), 0x77);
    assert_eq!(
        *driver.register_map(),
        RegisterMap {
            reg_id_addr: 0xD0,
            ac5_msb_addr: 0xB2,
            ac6_msb_addr: 0xB4,
            mc_msb_addr: 0xBC,
            md_msb_addr: 0xBE,
            ctrl_meas_addr: 0xF4,
            meas_out_lsb_addr: 0xF7,
            meas_out_msb_addr: 0xF6,
        }
    );
}

#[test]
fn init_checks_identity_then_reads_the_four_coefficients() {
    let bench = datasheet_device();
    let mut hw = bench.platform();
    let mut driver = BMP180::new();
    assert_eq!(driver.init(&mut hw), Ok(()));
    assert_eq!(*driver.sensor_state(), SensorState::Ready);
    assert_eq!(driver.calib_coeffs(), DATASHEET);
    assert_eq!(
        bench.calls(),
        vec![read(0xD0, 1), read(0xB2, 2), read(0xB4, 2), read(0xBC, 2), read(0xBE, 2)]
    );
}

#[test]
fn sanity_check_accepts_the_chip_id_and_keeps_the_state() {
    let bench = datasheet_device();
    let mut hw = bench.platform();
    let mut driver = BMP180::new();
    assert!(driver.sanity_check(&mut hw));
    assert_eq!(*driver.sensor_state(), SensorState::Initial);
    assert_eq!(bench.calls(), vec![read(0xD0, 1)]);
}

#[test]
fn identity_mismatch_is_not_found_and_never_calibrates() {
    let bench = datasheet_device();
    bench.set(BARO, 0xD0, 0x56);
    let mut hw = bench.platform();
    let mut driver = BMP180::new();
    assert_eq!(driver.init(&mut hw), Err(()));
    assert_eq!(*driver.sensor_state(), SensorState::Error(SensorError::NotFound));
    assert_eq!(bench.calls(), vec![read(0xD0, 1)]);
    assert_eq!(driver.calib_coeffs(), Coeffs { ac5: 0, ac6: 0, mc: 0, md: 0 });
}

#[test]
fn identity_read_that_fails_is_not_found() {
    let bench = datasheet_device();
    bench.fail_transaction(0);
    let mut hw = bench.platform();
    let mut driver = BMP180::new();
    assert!(!driver.sanity_check(&mut hw));
    assert_eq!(*driver.sensor_state(), SensorState::Error(SensorError::NotFound));
}

#[test]
fn zero_coefficient_fails_calibration_and_keeps_what_was_stored() {
    let bench = datasheet_device();
    let mut hw = bench.platform();
    let mut driver = BMP180::new();
    assert_eq!(driver.init(&mut hw), Ok(()));
    assert_eq!(driver.calib_coeffs(), DATASHEET);

    // The device now reports other coefficients, and zero for MC.
    bench.set(BARO, 0xB2, 0x12);
    bench.set(BARO, 0xB3, 0x34);
    bench.set(BARO, 0xB4, 0x00);
    bench.set(BARO, 0xB5, 0x07);
    bench.set(BARO, 0xBC, 0x00);
    bench.set(BARO, 0xBD, 0x00);
    bench.set(BARO, 0xBE, 0x11);
    bench.set(BARO, 0xBF, 0x11);
    bench.forget_calls();

    assert_eq!(driver.calibrate(&mut hw), Err(()));
    assert_eq!(*driver.sensor_state(), SensorState::Error(SensorError::FailedToCalibrate));
    // AC5 and AC6 were read before the failure; MC and MD are untouched.
    assert_eq!(driver.calib_coeffs(), Coeffs { ac5: 0x1234, ac6: 7, mc: -8711, md: 2868 });
    assert_eq!(bench.calls(), vec![read(0xB2, 2), read(0xB4, 2), read(0xBC, 2)]);
}

#[test]
fn zero_in_the_first_coefficient_overwrites_nothing() {
    let bench = datasheet_device();
    bench.set(BARO, 0xB2, 0);
    bench.set(BARO, 0xB3, 0);
    let mut hw = bench.platform();
    let mut driver = BMP180::new();
    assert_eq!(driver.init(&mut hw), Err(()));
    assert_eq!(*driver.sensor_state(), SensorState::Error(SensorError::FailedToCalibrate));
    assert_eq!(driver.calib_coeffs(), Coeffs { ac5: 0, ac6: 0, mc: 0, md: 0 });
    assert_eq!(bench.calls(), vec![read(0xD0, 1), read(0xB2, 2)]);
}

#[test]
fn read_calibration_coefficient_decodes_big_endian() {
    let bench = datasheet_device();
    let mut hw = bench.platform();
    let mut driver = BMP180::new();
    assert_eq!(driver.read_calibration_coefficient(&mut hw, 0xBC), Ok(-8711));
    assert_eq!(driver.read_calibration_coefficient(&mut hw, 0xB2), Ok(32757));
    assert_eq!(*driver.sensor_state(), SensorState::Initial);
    assert_eq!(driver.calib_coeffs(), Coeffs { ac5: 0, ac6: 0, mc: 0, md: 0 });
}

#[test]
fn read_calibration_coefficient_rejects_zero() {
    let bench = datasheet_device();
    let mut hw = bench.platform();
    let mut driver = BMP180::new();
    assert_eq!(driver.read_calibration_coefficient(&mut hw, 0xA0), Err(()));
    assert_eq!(*driver.sensor_state(), SensorState::Error(SensorError::FailedToCalibrate));
}

#[test]
fn calibration_read_that_fails_is_failed_to_calibrate() {
    let bench = datasheet_device();
    bench.fail_transaction(2);
    let mut hw = bench.platform();
    let mut driver = BMP180::new();
    assert_eq!(driver.init(&mut hw), Err(()));
    assert_eq!(*driver.sensor_state(), SensorState::Error(SensorError::FailedToCalibrate));
    assert_eq!(driver.calib_coeffs(), Coeffs { ac5: 32757, ac6: 0, mc: 0, md: 0 });
    assert_eq!(bench.calls().len(), 3);
}

#[test]
fn error_is_sticky_for_init_and_calibrate() {
    let bench = datasheet_device();
    bench.set(BARO, 0xD0, 0x00);
    let mut hw = bench.platform();
    let mut driver = BMP180::new();
    assert_eq!(driver.init(&mut hw), Err(()));
    bench.set(BARO, 0xD0, 0x55);
    bench.forget_calls();

    assert_eq!(driver.init(&mut hw), Err(()));
    assert_eq!(driver.calibrate(&mut hw), Err(()));
    assert_eq!(*driver.sensor_state(), SensorState::Error(SensorError::NotFound));
    assert_eq!(bench.calls(), vec![]);
}

#[test]
fn calibrate_may_run_again_on_a_ready_driver() {
    let bench = datasheet_device();
    let mut hw = bench.platform();
    let mut driver = BMP180::new();
    assert_eq!(driver.init(&mut hw), Ok(()));
    bench.set(BARO, 0xBE, 0x0B);
    bench.set(BARO, 0xBF, 0x35);
    assert_eq!(driver.calibrate(&mut hw), Ok(()));
    assert_eq!(*driver.sensor_state(), SensorState::Ready);
    assert_eq!(driver.calib_coeffs().md, 2869);
}

#[test]
fn temperature_of_the_datasheet_example() {
    // X1 = 4743, X2 = -2343, B5 = 2400, (B5 + 8) / 16 = 150 tenths of a degree.
    assert_eq!(compensate_temperature(27898, &DATASHEET), Some(15));
}

#[test]
fn temperature_of_the_reference_coefficients() {
    // X1 = 35657, X2 = -463, B5 = 35194, (B5 + 8) / 16 = 2200.
    let coeffs = Coeffs { ac5: 22652, ac6: -23684, mc: -8711, md: 2868 };
    assert_eq!(compensate_temperature(27898, &coeffs), Some(220));
}

#[test]
fn temperature_is_a_function_of_its_inputs() {
    let coeffs = Coeffs { ac5: 22652, ac6: -23684, mc: -8711, md: 2868 };
    let first = compensate_temperature(27898, &coeffs);
    let second = compensate_temperature(27898, &coeffs.clone());
    assert_eq!(first, second);
    assert_ne!(compensate_temperature(27899 + 200, &coeffs), None);
    assert_ne!(compensate_temperature(-12000, &coeffs), first);
}

#[test]
fn temperature_rounds_as_the_formula_says() {
    // X1 rounds down: (-1 * 1) >> 15 = -1. X2 rounds towards zero.
    let coeffs = Coeffs { ac5: 1, ac6: 1, mc: 1, md: 4000 };
    // X1 = -1, X2 = 2048 / 3999 = 0, B5 = -1, (B5 + 8) >> 4 = 0.
    assert_eq!(compensate_temperature(0, &coeffs), Some(0));
    let coeffs = Coeffs { ac5: 32767, ac6: 0, mc: -32768, md: 1 };
    // X1 = -32768 * 32767 >> 15 = -32767, X1 + MD = -32766,
    // X2 = -67108864 / -32766 = 2048, B5 = -30719, (B5 + 8) >> 4 = -1920 (rounded down), / 10 = -192.
    assert_eq!(compensate_temperature(-32768, &coeffs), Some(-192));
    // (B5 + 8) >> 4 rounds down, the division by 10 towards zero:
    // X1 = -200, X2 = 0, B5 = -200, (B5 + 8) >> 4 = -12, / 10 = -1.
    let coeffs = Coeffs { ac5: 16384, ac6: 400, mc: 1, md: 32767 };
    assert_eq!(compensate_temperature(0, &coeffs), Some(-1));
}

#[test]
fn temperature_has_no_value_for_a_zero_divisor() {
    // X1 = 0 and MD = 0.
    assert_eq!(compensate_temperature(5, &Coeffs { ac5: 0, ac6: 0, mc: 7, md: 0 }), None);
    // X1 = 2 and MD = -2.
    assert_eq!(
        compensate_temperature(4, &Coeffs { ac5: 16384, ac6: 0, mc: 7, md: -2 }),
        None
    );
}

#[test]
fn read_temperature_triggers_waits_and_reads_both_bytes() {
    let bench = datasheet_device();
    let mut hw = bench.platform();
    let mut driver = BMP180::new();
    assert_eq!(driver.init(&mut hw), Ok(()));
    bench.forget_calls();

    assert_eq!(driver.read_temperature(&mut hw), Ok(15));
    assert_eq!(driver.temperature(), 15);
    assert_eq!(*driver.sensor_state(), SensorState::Ready);
    assert_eq!(
        bench.calls(),
        vec![
            Call::Write(BARO, vec![0xF4, 0x2E]),
            Call::Delay(5),
            read(0xF6, 1),
            read(0xF7, 1),
        ]
    );
}

#[test]
fn read_temperature_on_a_failing_bus_is_transport_failure() {
    for (failing, calls_made) in [(5usize, 1usize), (6, 3), (7, 4)] {
        let bench = datasheet_device();
        bench.fail_transaction(failing);
        let mut hw = bench.platform();
        let mut driver = BMP180::new();
        assert_eq!(driver.init(&mut hw), Ok(()));
        bench.forget_calls();

        assert_eq!(driver.read_temperature(&mut hw), Err(()));
        assert_eq!(
            *driver.sensor_state(),
            SensorState::Error(SensorError::TransportFailure)
        );
        assert_eq!(driver.temperature(), 0);
        assert_eq!(bench.calls().len(), calls_made);
    }
}

#[test]
fn read_temperature_without_calibration_cannot_divide() {
    let bench = datasheet_device();
    let mut hw = bench.platform();
    let mut driver = BMP180::new();
    // All coefficients are still zero: X1 + MD is zero.
    assert_eq!(driver.read_temperature(&mut hw), Err(()));
    assert_eq!(*driver.sensor_state(), SensorState::Error(SensorError::FailedToCalibrate));
}

#[test]
fn read_pressure_is_a_placeholder() {
    let bench = datasheet_device();
    let mut hw = bench.platform();
    let mut driver = BMP180::new();
    assert_eq!(driver.init(&mut hw), Ok(()));
    assert_eq!(driver.read_temperature(&mut hw), Ok(15));
    bench.forget_calls();
    assert_eq!(driver.read_pressure(), 0);
    assert_eq!(driver.pressure(), 0);
    assert_eq!(driver.temperature(), 15);
    assert_eq!(bench.calls(), vec![]);
}

#[test]
fn big_endian_words() {
    assert_eq!(big_endian_i16(0x00, 0x00), 0);
    assert_eq!(big_endian_i16(0x7F, 0xFF), 32767);
    assert_eq!(big_endian_i16(0x80, 0x00), -32768);
    assert_eq!(big_endian_i16(0xFF, 0xFF), -1);
    assert_eq!(big_endian_i16(0x12, 0x34), 0x1234);
}

#[test]
fn unused_bus_primitive_is_still_part_of_the_platform() {
    let bench = datasheet_device();
    let mut hw = bench.platform();
    let mut buffer = [7u8; 3];
    assert_eq!(hw.read(BARO, &mut buffer), Ok(()));
    assert_eq!(buffer, [0, 0, 0]);
    bench.fail_transaction(1);
    assert_eq!(hw.read(BARO, &mut buffer), Err(TransportError));
    assert_eq!(bench.calls(), vec![Call::Read(BARO, 3), Call::Read(BARO, 3)]);
    let (transport, _delay) = hw.release();
    assert_eq!(transport.get(BARO, 0xD0), 0x55);
}
