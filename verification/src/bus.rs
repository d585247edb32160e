//! What the driver needs from its surroundings: a bus address, a blocking
//! bus transport, a blocking delay, and the errors an operation can end in.

use vstd::prelude::*;

verus! {

/// The sensor's bus address, selected by its address pin.
#[derive(Debug, Clone, Copy, PartialEq, Eq, Structural)]
pub enum Address {
    /// Address pin held high.
    High,
    /// Address pin held low.
    Low,
}

impl Address {
    /// The 7-bit address on the bus.
    pub open spec fn value_spec(self) -> u8 {
        match self {
            Address::High => 0x45,
            Address::Low => 0x44,
        }
    }

    /// The 7-bit address on the bus.
    #[verifier::when_used_as_spec(value_spec)]
    pub fn value(self) -> (value: u8)
        ensures
            value == self.value_spec(),
    {
        match self {
            Address::High => 0x45,
            Address::Low => 0x44,
        }
    }
}

/// There are exactly two bus addresses, 0x44 and 0x45, and each setting of
/// the address pin has its own.
pub proof fn lemma_address_values(a: Address, b: Address)
    ensures
        a.value_spec() == 0x44 || a.value_spec() == 0x45,
        a.value_spec() == b.value_spec() ==> a == b,
{
}

/// How an operation can fail.
#[derive(Debug, Clone, PartialEq, Eq)]
pub enum Error<E> {
    /// A group of the response did not match its checksum.
    Crc,
    /// The bus transport reported a failure.
    I2c(E),
}

/// A blocking transport on a two-wire bus.
///
/// The driver relies on nothing about an implementation: every result that
/// `write` and `read` can give, and every content they can leave in the
/// buffer, is handled.
pub trait Transport {
    /// The transport's own error.
    type Error;

    /// Writes `bytes` to the device at `address`.
    fn write(&mut self, address: u8, bytes: &[u8]) -> Result<(), Self::Error>;

    /// Reads from the device at `address` until `buffer` is full.
    fn read(&mut self, address: u8, buffer: &mut [u8]) -> Result<(), Self::Error>;
}

/// A blocking delay with millisecond resolution.
///
/// The driver relies on nothing about an implementation.
pub trait Delay {
    /// Returns after at least `ms` milliseconds.
    fn delay_ms(&mut self, ms: u32);
}

} // verus!
