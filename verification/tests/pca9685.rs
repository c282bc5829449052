use multi_mission_library::bus::{DelayProvider, Platform, Transport, TransportError};
use multi_mission_library::pwm::servo::pca9685::pcachannel::{
    PcaChannel, PcaChannelError, PcaChannelType,
};
use multi_mission_library::pwm::servo::pca9685::{compute_wake_mode, Pca9685, SetPwmError};
use std::cell::RefCell;
use std::rc::Rc;

/// One call made on the fake hardware.
#[derive(Debug, Clone, PartialEq)]
enum Call {
    Write(u8, Vec<u8>),
    Read(u8, usize),
    WriteRead(u8, Vec<u8>, usize),
    Delay(u32),
}

/// What a write does to the register it addresses.
#[derive(Debug, Clone, Copy, PartialEq)]
enum WriteEffect {
    Store,
    Ignore,
    StoreInstead(u8),
}

/// A bus with devices that answer from a table of registers.
struct Wire {
    registers: Vec<((u8, u8), u8)>,
    calls: Vec<Call>,
    failing: Vec<usize>,
    transactions: usize,
    effect: WriteEffect,
}

impl Wire {
    fn get(&self, device: u8, register: u8) -> u8 {
        for ((d, r), value) in &self.registers {
            if *d == device && *r == register {
                return *value;
            }
        }
        0
    }

    fn set(&mut self, device: u8, register: u8, value: u8) {
        for ((d, r), held) in self.registers.iter_mut() {
            if *d == device && *r == register {
                *held = value;
                return;
            }
        }
        self.registers.push(((device, register), value));
    }

    fn fails_now(&mut self) -> bool {
        let now = self.transactions;
        self.transactions += 1;
        self.failing.contains(&now)
    }
}

#[derive(Clone)]
struct Bench(Rc<RefCell<Wire>>);

impl Bench {
    fn new(registers: &[((u8, u8), u8)]) -> Self {
        Bench(Rc::new(RefCell::new(Wire {
            registers: registers.to_vec(),
            calls: Vec::new(),
            failing: Vec::new(),
            transactions: 0,
            effect: WriteEffect::Store,
        })))
    }

    fn platform(&self) -> Platform<Bench, Bench> {
        Platform::new(self.clone(), self.clone())
    }

    fn calls(&self) -> Vec<Call> {
        self.0.borrow().calls.clone()
    }

    fn forget_calls(&self) {
        self.0.borrow_mut().calls.clear();
    }

    /// Lets the transaction with this number fail, counted from 0 over all
    /// transactions made on the bus.
    fn fail_transaction(&self, number: usize) {
        self.0.borrow_mut().failing.push(number);
    }

    fn set(&self, device: u8, register: u8, value: u8) {
        self.0.borrow_mut().set(device, register, value);
    }

    fn get(&self, device: u8, register: u8) -> u8 {
        self.0.borrow().get(device, register)
    }

    fn on_write(&self, effect: WriteEffect) {
        self.0.borrow_mut().effect = effect;
    }
}

impl Transport for Bench {
    fn write(&mut self, address: u8, bytes: &[u8]) -> Result<(), TransportError> {
        let mut wire = self.0.borrow_mut();
        wire.calls.push(Call::Write(address, bytes.to_vec()));
        if wire.fails_now() {
            return Err(TransportError);
        }
        for (i, value) in bytes.iter().skip(1).enumerate() {
            let register = bytes[0].wrapping_add(i as u8);
            match wire.effect {
                WriteEffect::Store => wire.set(address, register, *value),
                WriteEffect::Ignore => {}
                WriteEffect::StoreInstead(other) => wire.set(address, register, other),
            }
        }
        Ok(())
    }

    fn read(&mut self, address: u8, buffer: &mut [u8]) -> Result<(), TransportError> {
        let mut wire = self.0.borrow_mut();
        wire.calls.push(Call::Read(address, buffer.len()));
        if wire.fails_now() {
            return Err(TransportError);
        }
        for slot in buffer.iter_mut() {
            *slot = 0;
        }
        Ok(())
    }

    fn write_read(
        &mut self,
        address: u8,
        request: &[u8],
        buffer: &mut [u8],
    ) -> Result<(), TransportError> {
        let mut wire = self.0.borrow_mut();
        wire.calls.push(Call::WriteRead(address, request.to_vec(), buffer.len()));
        if wire.fails_now() {
            // What a failed transaction leaves in the buffer must not be used.
            for slot in buffer.iter_mut() {
                *slot = 0xA5;
            }
            return Err(TransportError);
        }
        for (i, slot) in buffer.iter_mut().enumerate() {
            *slot = wire.get(address, request[0].wrapping_add(i as u8));
        }
        Ok(())
    }
}

impl DelayProvider for Bench {
    fn delay_ms(&mut self, duration: u32) {
        self.0.borrow_mut().calls.push(Call::Delay(duration));
    }
}

const PCA: u8 = 0x40;

#[test]
fn channel_of_a_servo_has_its_pulse_range() {
    assert_eq!(
        PcaChannel::new(0, PcaChannelType::SG90),
        Ok(PcaChannel { channel: 0, min_pwm: 409, max_pwm: 2047, channel_type: PcaChannelType::SG90 })
    );
    assert_eq!(
        PcaChannel::new(15, PcaChannelType::HOBBYWING),
        Ok(PcaChannel {
            channel: 15,
            min_pwm: 0,
            max_pwm: 0,
            channel_type: PcaChannelType::HOBBYWING
        })
    );
}

#[test]
fn channel_above_fifteen_is_invalid() {
    assert_eq!(PcaChannel::new(16, PcaChannelType::SG90), Err(PcaChannelError::InvalidChannel));
    assert_eq!(
        PcaChannel::new(usize::MAX, PcaChannelType::HOBBYWING),
        Err(PcaChannelError::InvalidChannel)
    );
}

#[test]
fn wake_mode_sets_restart_and_keeps_the_low_bits() {
    assert_eq!(compute_wake_mode(0x00), 0x80);
    assert_eq!(compute_wake_mode(0x11), 0x81);
    assert_eq!(compute_wake_mode(0xFF), 0x87);
    assert_eq!(compute_wake_mode(0x7A), 0x82);
}

#[test]
fn new_controller_is_woken_up() {
    let bench = Bench::new(&[((PCA, 0x00), 0x11)]);
    let mut hw = bench.platform();
    let device = Pca9685::new(&mut hw);
    assert!(device.is_ok());
    assert_eq!(device.ok().map(|d| d.addr), Some(0x40));
    assert_eq!(bench.get(PCA, 0x00), 0x81);
    assert_eq!(
        bench.calls(),
        vec![
            Call::WriteRead(PCA, vec![0x00], 1),
            Call::Write(PCA, vec![0x00, 0x81]),
            Call::WriteRead(PCA, vec![0x00], 1),
        ]
    );
}

#[test]
fn wake_up_on_a_failing_bus_is_transport_failure() {
    for failing in 0..3usize {
        let bench = Bench::new(&[((PCA, 0x00), 0x11)]);
        bench.fail_transaction(failing);
        let mut hw = bench.platform();
        assert_eq!(Pca9685::new(&mut hw).err(), Some(SetPwmError::TransportFailure));
        assert_eq!(bench.calls().len(), failing + 1);
    }
}

#[test]
fn set_pwm_writes_the_four_registers_of_the_channel() {
    let bench = Bench::new(&[((PCA, 0x00), 0x11)]);
    let mut hw = bench.platform();
    let mut device = Pca9685 { addr: PCA };
    assert_eq!(device.initialize(&mut hw), Ok(()));
    bench.forget_calls();

    assert_eq!(device.set_pwm(&mut hw, 3, 0x0123), Ok(()));
    assert_eq!(
        bench.calls(),
        vec![
            Call::Write(PCA, vec![0x12, 0x00]),
            Call::Write(PCA, vec![0x13, 0x00]),
            Call::Write(PCA, vec![0x14, 0x23]),
            Call::Write(PCA, vec![0x15, 0x01]),
        ]
    );
    bench.forget_calls();
    assert_eq!(device.set_pwm(&mut hw, 15, 4095), Ok(()));
    assert_eq!(
        bench.calls(),
        vec![
            Call::Write(PCA, vec![0x42, 0x00]),
            Call::Write(PCA, vec![0x43, 0x00]),
            Call::Write(PCA, vec![0x44, 0xFF]),
            Call::Write(PCA, vec![0x45, 0x0F]),
        ]
    );
}

#[test]
fn set_pwm_rejects_a_channel_above_fifteen() {
    let bench = Bench::new(&[]);
    let mut hw = bench.platform();
    let mut device = Pca9685 { addr: PCA };
    assert_eq!(device.set_pwm(&mut hw, 16, 100), Err(SetPwmError::InvalidChannel));
    assert_eq!(device.set_pwm(&mut hw, 255, 100), Err(SetPwmError::InvalidChannel));
    assert_eq!(bench.calls(), vec![]);
}

#[test]
fn set_pwm_stops_at_the_first_write_that_fails() {
    let bench = Bench::new(&[]);
    bench.fail_transaction(1);
    let mut hw = bench.platform();
    let mut device = Pca9685 { addr: PCA };
    assert_eq!(device.set_pwm(&mut hw, 0, 0x0FFF), Err(SetPwmError::TransportFailure));
    assert_eq!(
        bench.calls(),
        vec![Call::Write(PCA, vec![0x06, 0x00]), Call::Write(PCA, vec![0x07, 0x00])]
    );
}

#[test]
fn platform_passes_the_primitives_through() {
    let bench = Bench::new(&[((PCA, 0x10), 0xAB), ((PCA, 0x11), 0xCD)]);
    bench.on_write(WriteEffect::Store);
    let mut hw = bench.platform();
    let mut buffer = [0u8; 2];
    assert_eq!(hw.write_read(PCA, &[0x10], &mut buffer), Ok(()));
    assert_eq!(buffer, [0xAB, 0xCD]);
    assert_eq!(hw.read_registers(PCA, 0x11, &mut buffer[..1]), Ok(()));
    assert_eq!(buffer[0], 0xCD);
    assert_eq!(hw.write(PCA, &[0x10, 0x01, 0x02]), Ok(()));
    assert_eq!(hw.write_register(PCA, 0x20, 0x03), Ok(()));
    hw.delay_ms(7);
    assert_eq!(hw.read(PCA, &mut buffer), Ok(()));
    bench.fail_transaction(5);
    assert_eq!(hw.write_register(PCA, 0x20, 0x04), Err(TransportError));
    assert_eq!(bench.get(PCA, 0x10), 0x01);
    assert_eq!(bench.get(PCA, 0x11), 0x02);
    assert_eq!(bench.get(PCA, 0x20), 0x03);
    assert_eq!(
        bench.calls(),
        vec![
            Call::WriteRead(PCA, vec![0x10], 2),
            Call::WriteRead(PCA, vec![0x11], 1),
            Call::Write(PCA, vec![0x10, 0x01, 0x02]),
            Call::Write(PCA, vec![0x20, 0x03]),
            Call::Delay(7),
            Call::Read(PCA, 2),
            Call::Write(PCA, vec![0x20, 0x04]),
        ]
    );
}
