//! The driver: a handle on one sensor, with its four operations.
//!
//! The transport and the delay are the caller's, and nothing is known of
//! them here. The contract of an operation therefore states what holds of
//! its result whatever they do. What an operation asks of them, in which
//! order, and what it makes of each answer is stated exactly of
//! [`Transaction`], which every operation runs from its first request to
//! its end.

use crate::bus::{Address, Delay, Error, Transport};
use crate::command::{ClockStretch, Repeatability};
use crate::response::{Measurement, MEASUREMENT_RESPONSE_LEN, STATUS_RESPONSE_LEN};
use crate::status::{Status, KNOWN_BITS};
use crate::transaction::{
    is_reading,
    is_status_read,
    lemma_finish_ends,
    lemma_reading_range,
    lemma_status_read_known_bits,
    may_end_with,
    Action,
    Event,
    Operation,
    Reply,
    Transaction,
};
use vstd::prelude::*;

verus! {

/// A handle on one sensor: its bus address and the delay it waits with.
#[derive(Debug, Clone)]
pub struct Sht3x<D> {
    address: Address,
    delay: D,
}

/// Whether a transaction that waits for the answer to `action` is in the
/// phase, and carries out the operation, that go with that request.
spec fn awaits<E>(transaction: Transaction, action: Action<E>) -> bool {
    match action {
        Action::Write { .. } => transaction.phase is Writing,
        Action::Delay { .. } => transaction.phase is Waiting,
        Action::ReadMeasurement { .. } => transaction.phase is Reading && transaction.operation
            is Measure,
        Action::ReadStatus { .. } => transaction.phase is Reading && transaction.operation
            is Status,
        Action::Finish(result) => may_end_with(transaction.operation, result),
        Action::Idle => false,
    }
}

impl<D> Sht3x<D> {
    /// The bus address of the sensor.
    pub closed spec fn address(&self) -> Address {
        self.address
    }

    /// The delay that the driver waits with.
    pub closed spec fn delay(&self) -> D {
        self.delay
    }

    /// Creates a new driver.
    pub fn new(address: Address, delay: D) -> (driver: Self)
        ensures
            driver.address() == address,
            driver.delay() == delay,
    {
        Self { address, delay }
    }
}

impl<D: Delay> Sht3x<D> {
    /// Carries out one operation: performs what its transaction asks for,
    /// one request after the other, until the transaction ends.
    fn transact<I2C: Transport>(&mut self, i2c: &mut I2C, operation: Operation) -> (result: Result<
        Reply,
        Error<I2C::Error>,
    >)
        ensures
            final(self).address() == old(self).address(),
            may_end_with(operation, result),
    {
        let begun = Transaction::start::<I2C::Error>(self.address, operation);
        let mut transaction: Transaction = begun.0;
        let mut action: Action<I2C::Error> = begun.1;
        loop
            invariant
                self.address == old(self).address,
                transaction.operation == operation,
                awaits(transaction, action),
            decreases transaction.phase.remaining(),
        {
            let event: Event<I2C::Error> = match action {
                Action::Write { address, frame } => Event::Written(i2c.write(address, &frame)),
                Action::Delay { ms } => {
                    self.delay.delay_ms(ms);
                    Event::Delayed
                },
                Action::ReadMeasurement { address } => {
                    let mut response = [0u8; MEASUREMENT_RESPONSE_LEN];
                    match i2c.read(address, &mut response) {
                        Ok(_) => Event::MeasurementRead(Ok(response)),
                        Err(error) => Event::MeasurementRead(Err(error)),
                    }
                },
                Action::ReadStatus { address } => {
                    let mut response = [0u8; STATUS_RESPONSE_LEN];
                    match i2c.read(address, &mut response) {
                        Ok(_) => Event::StatusRead(Ok(response)),
                        Err(error) => Event::StatusRead(Err(error)),
                    }
                },
                Action::Finish(result) => {
                    return result;
                },
                Action::Idle => unreached(),
            };
            proof {
                lemma_finish_ends(transaction, event);
            }
            let next = transaction.step(event);
            transaction = next.0;
            action = next.1;
        }
    }

    /// Take a temperature and humidity measurement.
    ///
    /// The reading is that of the response read from the bus; there is none
    /// unless both of its groups match their checksums.
    pub fn measure<I2C: Transport>(
        &mut self,
        i2c: &mut I2C,
        cs: ClockStretch,
        rpt: Repeatability,
    ) -> (result: Result<Measurement, Error<I2C::Error>>)
        ensures
            final(self).address() == old(self).address(),
            result matches Ok(measurement) ==> {
                &&& is_reading(measurement)
                &&& -4500 <= measurement.temperature <= 13000
                &&& measurement.humidity <= 10000
            },
    {
        match self.transact(i2c, Operation::Measure(cs, rpt)) {
            Ok(Reply::Measurement(measurement)) => {
                proof {
                    lemma_reading_range(measurement);
                }
                Ok(measurement)
            },
            Ok(_) => unreached(),
            Err(error) => Err(error),
        }
    }

    /// Soft reset the sensor.
    pub fn reset<I2C: Transport>(&mut self, i2c: &mut I2C) -> (result: Result<
        (),
        Error<I2C::Error>,
    >)
        ensures
            final(self).address() == old(self).address(),
            result matches Err(error) ==> error is I2c,
    {
        match self.transact(i2c, Operation::Reset) {
            Ok(_) => Ok(()),
            Err(error) => Err(error),
        }
    }

    /// Read the status register.
    pub fn status<I2C: Transport>(&mut self, i2c: &mut I2C) -> (result: Result<
        Status,
        Error<I2C::Error>,
    >)
        ensures
            final(self).address() == old(self).address(),
            result matches Ok(status) ==> {
                &&& is_status_read(status)
                &&& status.spec_bits() & !KNOWN_BITS == 0
            },
    {
        match self.transact(i2c, Operation::Status) {
            Ok(Reply::Status(status)) => {
                proof {
                    lemma_status_read_known_bits(status);
                }
                Ok(status)
            },
            Ok(_) => unreached(),
            Err(error) => Err(error),
        }
    }

    /// Clear the status register.
    pub fn clear_status<I2C: Transport>(&mut self, i2c: &mut I2C) -> (result: Result<
        (),
        Error<I2C::Error>,
    >)
        ensures
            final(self).address() == old(self).address(),
            result matches Err(error) ==> error is I2c,
    {
        match self.transact(i2c, Operation::ClearStatus) {
            Ok(_) => Ok(()),
            Err(error) => Err(error),
        }
    }
}

} // verus!
