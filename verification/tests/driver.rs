use sht3x::bus::{Address, Delay, Error, Transport};
use sht3x::command::{ClockStretch, Repeatability};
use sht3x::convert::{convert_humidity, convert_temperature};
use sht3x::crc::crc8;
use sht3x::driver::Sht3x;
use sht3x::response::Measurement;
use sht3x::status::{Flag, Status};
use std::cell::RefCell;
use std::rc::Rc;

#[derive(Debug, Clone, PartialEq, Eq)]
enum Call {
    Write(u8, Vec<u8>),
    Read(u8, usize),
    Delay(u32),
}

#[derive(Debug, Clone, Copy, PartialEq, Eq)]
struct Fault(u8);

type Log = Rc<RefCell<Vec<Call>>>;

struct FakeBus {
    log: Log,
    write_result: Result<(), Fault>,
    read_result: Result<Vec<u8>, Fault>,
}

impl Transport for FakeBus {
    type Error = Fault;

    fn write(&mut self, address: u8, bytes: &[u8]) -> Result<(), Fault> {
        self.log.borrow_mut().push(Call::Write(address, bytes.to_vec()));
        self.write_result
    }

    fn read(&mut self, address: u8, buffer: &mut [u8]) -> Result<(), Fault> {
        self.log.borrow_mut().push(Call::Read(address, buffer.len()));
        match &self.read_result {
            Ok(bytes) => {
                buffer.copy_from_slice(&bytes[..buffer.len()]);
                Ok(())
            }
            Err(fault) => Err(*fault),
        }
    }
}

struct FakeDelay {
    log: Log,
}

impl Delay for FakeDelay {
    fn delay_ms(&mut self, ms: u32) {
        self.log.borrow_mut().push(Call::Delay(ms));
    }
}

fn setup(
    address: Address,
    write_result: Result<(), Fault>,
    read_result: Result<Vec<u8>, Fault>,
) -> (Sht3x<FakeDelay>, FakeBus, Log) {
    let log: Log = Rc::new(RefCell::new(Vec::new()));
    let driver = Sht3x::new(address, FakeDelay { log: log.clone() });
    let bus = FakeBus { log: log.clone(), write_result, read_result };
    (driver, bus, log)
}

fn measurement_response() -> Vec<u8> {
    vec![0x62, 0x31, crc8([0x62, 0x31]), 0x6F, 0xAC, crc8([0x6F, 0xAC])]
}

#[test]
fn measure_returns_the_converted_response() {
    let (mut driver, mut bus, _) = setup(Address::Low, Ok(()), Ok(measurement_response()));
    let measurement = driver
        .measure(&mut bus, ClockStretch::Enabled, Repeatability::High)
        .unwrap();
    assert_eq!(measurement.temperature, convert_temperature(0x6231));
    assert_eq!(measurement.humidity, convert_humidity(0x6FAC));
    assert_eq!(measurement, Measurement { temperature: 2212, humidity: 4362 });
}

#[test]
fn measure_fails_on_any_flipped_payload_bit() {
    for at in [0usize, 1, 3, 4] {
        for bit in 0..8 {
            let mut response = measurement_response();
            response[at] ^= 1 << bit;
            let (mut driver, mut bus, _) = setup(Address::Low, Ok(()), Ok(response));
            assert_eq!(
                driver.measure(&mut bus, ClockStretch::Enabled, Repeatability::High),
                Err(Error::Crc)
            );
        }
    }
}

#[test]
fn measure_returns_nothing_when_only_humidity_is_corrupt() {
    let mut response = measurement_response();
    response[5] ^= 0xFF;
    let (mut driver, mut bus, _) = setup(Address::Low, Ok(()), Ok(response));
    assert_eq!(
        driver.measure(&mut bus, ClockStretch::Disabled, Repeatability::Low),
        Err(Error::Crc)
    );
}

#[test]
fn measure_writes_waits_then_reads() {
    let cases = [
        (ClockStretch::Enabled, Repeatability::High, [0x2C, 0x06], 15),
        (ClockStretch::Enabled, Repeatability::Medium, [0x2C, 0x0D], 6),
        (ClockStretch::Enabled, Repeatability::Low, [0x2C, 0x10], 4),
        (ClockStretch::Disabled, Repeatability::High, [0x24, 0x00], 15),
        (ClockStretch::Disabled, Repeatability::Medium, [0x24, 0x0B], 6),
        (ClockStretch::Disabled, Repeatability::Low, [0x24, 0x16], 4),
    ];
    for (cs, rpt, frame, wait) in cases {
        let (mut driver, mut bus, log) = setup(Address::Low, Ok(()), Ok(measurement_response()));
        driver.measure(&mut bus, cs, rpt).unwrap();
        assert_eq!(
            *log.borrow(),
            vec![Call::Write(0x44, frame.to_vec()), Call::Delay(wait), Call::Read(0x44, 6)]
        );
    }
}

#[test]
fn high_address_is_used_on_the_bus() {
    let (mut driver, mut bus, log) = setup(Address::High, Ok(()), Ok(measurement_response()));
    driver.measure(&mut bus, ClockStretch::Enabled, Repeatability::High).unwrap();
    assert_eq!(
        *log.borrow(),
        vec![Call::Write(0x45, vec![0x2C, 0x06]), Call::Delay(15), Call::Read(0x45, 6)]
    );
}

#[test]
fn status_decodes_alert_and_checksum_flags() {
    let response = vec![0x80, 0x01, crc8([0x80, 0x01])];
    let (mut driver, mut bus, log) = setup(Address::Low, Ok(()), Ok(response));
    let status = driver.status(&mut bus).unwrap();
    assert!(status.contains(Flag::AlertPending));
    assert!(status.contains(Flag::WriteDataChecksum));
    assert!(!status.contains(Flag::Heater));
    assert!(!status.contains(Flag::RhTrackingAlert));
    assert!(!status.contains(Flag::TTrackingAlert));
    assert!(!status.contains(Flag::SystemResetDetected));
    assert!(!status.contains(Flag::Command));
    assert_eq!(status, Status::from_bits_truncate(0x8001));
    assert_eq!(
        *log.borrow(),
        vec![Call::Write(0x44, vec![0xF3, 0x2D]), Call::Delay(1), Call::Read(0x44, 3)]
    );
}

#[test]
fn status_drops_reserved_bits_of_the_word() {
    let response = vec![0xFF, 0xFF, crc8([0xFF, 0xFF])];
    let (mut driver, mut bus, _) = setup(Address::Low, Ok(()), Ok(response));
    assert_eq!(driver.status(&mut bus).unwrap().bits(), 0xAC13);
}

#[test]
fn status_fails_on_wrong_checksum() {
    let response = vec![0x80, 0x01, crc8([0x80, 0x01]) ^ 0x01];
    let (mut driver, mut bus, _) = setup(Address::Low, Ok(()), Ok(response));
    assert_eq!(driver.status(&mut bus), Err(Error::Crc));
}

#[test]
fn reset_writes_and_waits_only() {
    let (mut driver, mut bus, log) = setup(Address::Low, Ok(()), Err(Fault(1)));
    assert_eq!(driver.reset(&mut bus), Ok(()));
    assert_eq!(*log.borrow(), vec![Call::Write(0x44, vec![0x30, 0xA2]), Call::Delay(1)]);
}

#[test]
fn clear_status_writes_and_waits_only() {
    let (mut driver, mut bus, log) = setup(Address::High, Ok(()), Err(Fault(1)));
    assert_eq!(driver.clear_status(&mut bus), Ok(()));
    assert_eq!(*log.borrow(), vec![Call::Write(0x45, vec![0x30, 0x41]), Call::Delay(1)]);
}

#[test]
fn failed_write_fails_measure_before_delay_and_read() {
    let (mut driver, mut bus, log) = setup(Address::Low, Err(Fault(5)), Ok(measurement_response()));
    assert_eq!(
        driver.measure(&mut bus, ClockStretch::Enabled, Repeatability::High),
        Err(Error::I2c(Fault(5)))
    );
    assert_eq!(*log.borrow(), vec![Call::Write(0x44, vec![0x2C, 0x06])]);
}

#[test]
fn failed_write_fails_status_before_delay_and_read() {
    let (mut driver, mut bus, log) = setup(Address::Low, Err(Fault(6)), Ok(vec![0x80, 0x01, 0x93]));
    assert_eq!(driver.status(&mut bus), Err(Error::I2c(Fault(6))));
    assert_eq!(*log.borrow(), vec![Call::Write(0x44, vec![0xF3, 0x2D])]);
}

#[test]
fn failed_write_fails_reset_before_delay() {
    let (mut driver, mut bus, log) = setup(Address::Low, Err(Fault(7)), Err(Fault(0)));
    assert_eq!(driver.reset(&mut bus), Err(Error::I2c(Fault(7))));
    assert_eq!(*log.borrow(), vec![Call::Write(0x44, vec![0x30, 0xA2])]);
}

#[test]
fn failed_write_fails_clear_status_before_delay() {
    let (mut driver, mut bus, log) = setup(Address::Low, Err(Fault(8)), Err(Fault(0)));
    assert_eq!(driver.clear_status(&mut bus), Err(Error::I2c(Fault(8))));
    assert_eq!(*log.borrow(), vec![Call::Write(0x44, vec![0x30, 0x41])]);
}

#[test]
fn failed_read_is_a_bus_error() {
    let (mut driver, mut bus, log) = setup(Address::Low, Ok(()), Err(Fault(9)));
    assert_eq!(
        driver.measure(&mut bus, ClockStretch::Enabled, Repeatability::Medium),
        Err(Error::I2c(Fault(9)))
    );
    assert_eq!(
        *log.borrow(),
        vec![Call::Write(0x44, vec![0x2C, 0x0D]), Call::Delay(6), Call::Read(0x44, 6)]
    );
    let (mut driver, mut bus, _) = setup(Address::Low, Ok(()), Err(Fault(10)));
    assert_eq!(driver.status(&mut bus), Err(Error::I2c(Fault(10))));
}

#[test]
fn driver_can_be_used_again_after_a_failure() {
    let (mut driver, mut bus, log) = setup(Address::Low, Err(Fault(1)), Ok(measurement_response()));
    assert!(driver.measure(&mut bus, ClockStretch::Enabled, Repeatability::High).is_err());
    bus.write_result = Ok(());
    assert_eq!(
        driver.measure(&mut bus, ClockStretch::Enabled, Repeatability::High),
        Ok(Measurement { temperature: 2212, humidity: 4362 })
    );
    assert_eq!(log.borrow().len(), 4);
}

#[test]
fn main_items_are_at_the_crate_root() {
    let log: Log = Rc::new(RefCell::new(Vec::new()));
    let mut driver = sht3x::Sht3x::new(sht3x::Address::Low, FakeDelay { log: log.clone() });
    let mut bus = FakeBus { log, write_result: Ok(()), read_result: Ok(measurement_response()) };
    let reading: Result<sht3x::Measurement, sht3x::Error<Fault>> =
        driver.measure(&mut bus, sht3x::ClockStretch::Disabled, sht3x::Repeatability::Low);
    assert_eq!(reading, Ok(sht3x::Measurement { temperature: 2212, humidity: 4362 }));
}
