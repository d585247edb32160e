//! Driver core for the SHT3x family of temperature and humidity sensors.
//!
//! The sensor is spoken to over a two-wire bus: a 16-bit command goes out,
//! the sensor is given time, and for some commands a response of
//! checksum-guarded 16-bit words is read back.
//!
//! - [`command`]: the command set and the opcode of each command.
//! - [`crc`]: the checksum of a two-byte group.
//! - [`convert`]: raw words to hundredths of a degree and of a percent.
//! - [`status`]: the flags of the status register.
//! - [`response`]: decoding of measurement and status responses.
//! - [`transaction`]: one bus transaction as a state machine without I/O.
//! - [`bus`]: the address, the errors, and the transport and delay that the
//!   driver is handed.
//! - [`driver`]: the driver and its four operations.

pub mod bus;
pub mod command;
pub mod convert;
pub mod crc;
pub mod driver;
pub mod response;
pub mod status;
pub mod transaction;

pub use bus::{Address, Delay, Error, Transport};
pub use command::{ClockStretch, Repeatability};
pub use driver::Sht3x;
pub use response::Measurement;
pub use status::{Flag, Status};
