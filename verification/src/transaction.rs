//! One bus transaction, as a state machine without I/O of its own.
//!
//! A transaction asks for one thing at a time (a write, a delay, a read) and
//! is told how it went; the answer decides what it asks for next. Whoever
//! drives it performs the requests.

use crate::bus::{Address, Error};
use crate::command::{ClockStretch, Command, Repeatability};
use crate::convert::{lemma_centideg_range, lemma_centirh_range};
use crate::response::{
    decode_measurement,
    decode_status,
    group_ok,
    group_word,
    measurement_from_words,
    measurement_result,
    status_result,
    Measurement,
    MEASUREMENT_RESPONSE_LEN,
    STATUS_RESPONSE_LEN,
};
use crate::status::{Status, KNOWN_BITS};
use vstd::prelude::*;

verus! {

/// Shortest wait after any command, in milliseconds.
pub const COMMAND_WAIT_TIME_MS: u8 = 1;

/// Time the sensor needs to settle after a soft reset, in milliseconds.
pub const SOFT_RESET_TIME_MS: u8 = 1;

/// The wait that follows a command, in milliseconds: the wait the command
/// asks for, but never less than the shortest wait.
pub open spec fn wait_ms_spec(wait_time: Option<u8>) -> u32 {
    match wait_time {
        Some(ms) => if ms >= COMMAND_WAIT_TIME_MS {
            ms as u32
        } else {
            COMMAND_WAIT_TIME_MS as u32
        },
        None => COMMAND_WAIT_TIME_MS as u32,
    }
}

/// The wait that follows a command, in milliseconds.
pub fn wait_ms(wait_time: Option<u8>) -> (ms: u32)
    ensures
        ms == wait_ms_spec(wait_time),
        ms >= COMMAND_WAIT_TIME_MS,
{
    let asked: u8 = match wait_time {
        Some(ms) => ms,
        None => 0,
    };
    if asked >= COMMAND_WAIT_TIME_MS {
        asked as u32
    } else {
        COMMAND_WAIT_TIME_MS as u32
    }
}

/// An operation of the driver.
#[derive(Debug, Clone, Copy, PartialEq, Eq, Structural)]
pub enum Operation {
    /// Take a single-shot temperature and humidity measurement.
    Measure(ClockStretch, Repeatability),
    /// Soft reset the sensor.
    Reset,
    /// Read the status register.
    Status,
    /// Clear the status register.
    ClearStatus,
}

impl Operation {
    /// The command that the operation sends.
    pub open spec fn command_spec(self) -> Command {
        match self {
            Operation::Measure(cs, rpt) => Command::SingleShot(cs, rpt),
            Operation::Reset => Command::SoftReset,
            Operation::Status => Command::Status,
            Operation::ClearStatus => Command::ClearStatus,
        }
    }

    /// The wait that the operation asks for after its command, if any.
    pub open spec fn wait_time_spec(self) -> Option<u8> {
        match self {
            Operation::Measure(_, rpt) => Some(rpt.max_duration_ms() as u8),
            Operation::Reset => Some(SOFT_RESET_TIME_MS),
            Operation::Status => None,
            Operation::ClearStatus => None,
        }
    }

    /// The command that the operation sends.
    #[verifier::when_used_as_spec(command_spec)]
    pub fn command(self) -> (command: Command)
        ensures
            command == self.command_spec(),
    {
        match self {
            Operation::Measure(cs, rpt) => Command::SingleShot(cs, rpt),
            Operation::Reset => Command::SoftReset,
            Operation::Status => Command::Status,
            Operation::ClearStatus => Command::ClearStatus,
        }
    }

    /// The wait that the operation asks for after its command, if any.
    #[verifier::when_used_as_spec(wait_time_spec)]
    pub fn wait_time(self) -> (wait_time: Option<u8>)
        ensures
            wait_time == self.wait_time_spec(),
    {
        match self {
            Operation::Measure(_, rpt) => Some(rpt.max_duration()),
            Operation::Reset => Some(SOFT_RESET_TIME_MS),
            Operation::Status => None,
            Operation::ClearStatus => None,
        }
    }
}

/// What a successful operation hands back.
#[derive(Debug, Clone, Copy, PartialEq, Eq, Structural)]
pub enum Reply {
    /// The reading of a measurement.
    Measurement(Measurement),
    /// The flags of a status read.
    Status(Status),
    /// Nothing: the operation expects no response.
    Done,
}

/// How far a transaction has come.
#[derive(Debug, Clone, Copy, PartialEq, Eq, Structural)]
pub enum Phase {
    /// The command is being written.
    Writing,
    /// The command was written; the wait after it is running.
    Waiting,
    /// The wait is over; the response is being read.
    Reading,
    /// The transaction has ended.
    Finished,
}

/// What a transaction asks its driver to do next.
#[derive(Debug, PartialEq, Eq)]
pub enum Action<E> {
    /// Write `frame` to the device at `address`.
    Write { address: u8, frame: [u8; 2] },
    /// Wait for `ms` milliseconds.
    Delay { ms: u32 },
    /// Read a six-byte measurement response from the device at `address`.
    ReadMeasurement { address: u8 },
    /// Read a three-byte status response from the device at `address`.
    ReadStatus { address: u8 },
    /// The transaction has ended with this result.
    Finish(Result<Reply, Error<E>>),
    /// Nothing: the event was not the answer to what the transaction waits
    /// for.
    Idle,
}

/// What a transaction's driver reports back.
#[derive(Debug, PartialEq, Eq)]
pub enum Event<E> {
    /// The write ended with this result.
    Written(Result<(), E>),
    /// The delay is over.
    Delayed,
    /// The read of a measurement response ended with this result.
    MeasurementRead(Result<[u8; MEASUREMENT_RESPONSE_LEN], E>),
    /// The read of a status response ended with this result.
    StatusRead(Result<[u8; STATUS_RESPONSE_LEN], E>),
}

/// A transaction in progress.
#[derive(Debug, Clone, Copy, PartialEq, Eq, Structural)]
pub struct Transaction {
    /// The device addressed.
    pub address: Address,
    /// The operation carried out.
    pub operation: Operation,
    /// How far the transaction has come.
    pub phase: Phase,
}

/// What a measurement transaction ends with, given how the read went.
pub open spec fn measurement_outcome<E>(
    read: Result<[u8; MEASUREMENT_RESPONSE_LEN], E>,
) -> Result<Reply, Error<E>> {
    match read {
        Ok(response) => match measurement_result::<E>(response@) {
            Ok(measurement) => Ok(Reply::Measurement(measurement)),
            Err(error) => Err(error),
        },
        Err(error) => Err(Error::I2c(error)),
    }
}

/// What a status transaction ends with, given how the read went.
pub open spec fn status_outcome<E>(
    read: Result<[u8; STATUS_RESPONSE_LEN], E>,
) -> Result<Reply, Error<E>> {
    match read {
        Ok(response) => match status_result::<E>(response@) {
            Ok(status) => Ok(Reply::Status(status)),
            Err(error) => Err(error),
        },
        Err(error) => Err(Error::I2c(error)),
    }
}

impl Phase {
    /// Number of requests that a transaction in this phase can still make
    /// before it ends.
    pub open spec fn remaining(self) -> nat {
        match self {
            Phase::Writing => 3,
            Phase::Waiting => 2,
            Phase::Reading => 1,
            Phase::Finished => 0,
        }
    }
}

impl Transaction {
    /// The transaction at its beginning.
    pub open spec fn start_spec(address: Address, operation: Operation) -> Transaction {
        Transaction { address, operation, phase: Phase::Writing }
    }

    /// The request that opens a transaction: the write of its command.
    pub open spec fn first_action<E>(address: Address, operation: Operation) -> Action<E> {
        Action::Write {
            address: address.value_spec(),
            frame: operation.command_spec().frame(),
        }
    }

    /// This transaction in another phase.
    pub open spec fn at(self, phase: Phase) -> Transaction {
        Transaction { address: self.address, operation: self.operation, phase }
    }

    /// The transaction after `event`, and what it asks for next.
    ///
    /// A failed write or read ends the transaction with the transport's
    /// error. A successful write is followed by the wait; the wait by the
    /// read, if the operation expects a response, and by the end of the
    /// transaction if not; a successful read by the decoded response or a
    /// checksum error. An event that does not answer what the transaction
    /// waits for changes nothing.
    pub open spec fn step_spec<E>(self, event: Event<E>) -> (Transaction, Action<E>) {
        match (self.phase, event) {
            (Phase::Writing, Event::Written(Ok(_))) => (
                self.at(Phase::Waiting),
                Action::Delay { ms: wait_ms_spec(self.operation.wait_time_spec()) },
            ),
            (Phase::Writing, Event::Written(Err(error))) => (
                self.at(Phase::Finished),
                Action::Finish(Err(Error::I2c(error))),
            ),
            (Phase::Waiting, Event::Delayed) => match self.operation {
                Operation::Measure(_, _) => (
                    self.at(Phase::Reading),
                    Action::ReadMeasurement { address: self.address.value_spec() },
                ),
                Operation::Status => (
                    self.at(Phase::Reading),
                    Action::ReadStatus { address: self.address.value_spec() },
                ),
                Operation::Reset => (self.at(Phase::Finished), Action::Finish(Ok(Reply::Done))),
                Operation::ClearStatus => (
                    self.at(Phase::Finished),
                    Action::Finish(Ok(Reply::Done)),
                ),
            },
            (Phase::Reading, Event::MeasurementRead(read)) => match self.operation {
                Operation::Measure(_, _) => (
                    self.at(Phase::Finished),
                    Action::Finish(measurement_outcome(read)),
                ),
                _ => (self, Action::Idle),
            },
            (Phase::Reading, Event::StatusRead(read)) => match self.operation {
                Operation::Status => (
                    self.at(Phase::Finished),
                    Action::Finish(status_outcome(read)),
                ),
                _ => (self, Action::Idle),
            },
            _ => (self, Action::Idle),
        }
    }

    /// Begins a transaction, and asks for the write of its command.
    pub fn start<E>(address: Address, operation: Operation) -> (begun: (Transaction, Action<E>))
        ensures
            begun.0 == Transaction::start_spec(address, operation),
            begun.1 == Transaction::first_action::<E>(address, operation),
    {
        let frame: [u8; 2] = operation.command().to_bytes();
        (
            Transaction { address, operation, phase: Phase::Writing },
            Action::Write { address: address.value(), frame },
        )
    }

    /// Takes the answer to the last request, and says what to do next.
    pub fn step<E>(self, event: Event<E>) -> (next: (Transaction, Action<E>))
        ensures
            next == self.step_spec(event),
    {
        match self.phase {
            Phase::Writing => match event {
                Event::Written(Ok(_)) => (
                    Transaction {
                        address: self.address,
                        operation: self.operation,
                        phase: Phase::Waiting,
                    },
                    Action::Delay { ms: wait_ms(self.operation.wait_time()) },
                ),
                Event::Written(Err(error)) => (
                    Transaction {
                        address: self.address,
                        operation: self.operation,
                        phase: Phase::Finished,
                    },
                    Action::Finish(Err(Error::I2c(error))),
                ),
                _ => (self, Action::Idle),
            },
            Phase::Waiting => match event {
                Event::Delayed => match self.operation {
                    Operation::Measure(_, _) => (
                        Transaction {
                            address: self.address,
                            operation: self.operation,
                            phase: Phase::Reading,
                        },
                        Action::ReadMeasurement { address: self.address.value() },
                    ),
                    Operation::Status => (
                        Transaction {
                            address: self.address,
                            operation: self.operation,
                            phase: Phase::Reading,
                        },
                        Action::ReadStatus { address: self.address.value() },
                    ),
                    _ => (
                        Transaction {
                            address: self.address,
                            operation: self.operation,
                            phase: Phase::Finished,
                        },
                        Action::Finish(Ok(Reply::Done)),
                    ),
                },
                _ => (self, Action::Idle),
            },
            Phase::Reading => match (self.operation, event) {
                (Operation::Measure(_, _), Event::MeasurementRead(read)) => {
                    let result: Result<Reply, Error<E>> = match read {
                        Ok(response) => match decode_measurement::<E>(&response) {
                            Ok(measurement) => Ok(Reply::Measurement(measurement)),
                            Err(error) => Err(error),
                        },
                        Err(error) => Err(Error::I2c(error)),
                    };
                    (
                        Transaction {
                            address: self.address,
                            operation: self.operation,
                            phase: Phase::Finished,
                        },
                        Action::Finish(result),
                    )
                },
                (Operation::Status, Event::StatusRead(read)) => {
                    let result: Result<Reply, Error<E>> = match read {
                        Ok(response) => match decode_status::<E>(&response) {
                            Ok(status) => Ok(Reply::Status(status)),
                            Err(error) => Err(error),
                        },
                        Err(error) => Err(Error::I2c(error)),
                    };
                    (
                        Transaction {
                            address: self.address,
                            operation: self.operation,
                            phase: Phase::Finished,
                        },
                        Action::Finish(result),
                    )
                },
                _ => (self, Action::Idle),
            },
            Phase::Finished => (self, Action::Idle),
        }
    }
}

/// Whether `result` is one of the results that `operation` can end with:
/// a measurement ends with a reading that some pair of raw words stands
/// for, a status read with the status that some raw word reads as, a reset
/// and a clearing of the status with nothing; a checksum error can only end
/// an operation that reads a response.
pub open spec fn may_end_with<E>(operation: Operation, result: Result<Reply, Error<E>>) -> bool {
    match result {
        Ok(Reply::Measurement(measurement)) => operation is Measure && is_reading(measurement),
        Ok(Reply::Status(status)) => operation is Status && is_status_read(status),
        Ok(Reply::Done) => operation is Reset || operation is ClearStatus,
        Err(Error::Crc) => operation is Measure || operation is Status,
        Err(Error::I2c(_)) => true,
    }
}

/// Whether some pair of raw words stands for `measurement`.
pub open spec fn is_reading(measurement: Measurement) -> bool {
    exists|temperature: u16, humidity: u16|
        measurement == #[trigger] measurement_from_words(temperature, humidity)
}

/// Whether some raw status word reads as `status`.
pub open spec fn is_status_read(status: Status) -> bool {
    exists|word: u16| status == #[trigger] Status::spec_from_bits_truncate(word)
}

/// A status read from a word carries no reserved bit.
pub proof fn lemma_status_read_known_bits(status: Status)
    requires
        is_status_read(status),
    ensures
        status.spec_bits() & !KNOWN_BITS == 0,
{
    let word = choose|word: u16| status == #[trigger] Status::spec_from_bits_truncate(word);
    Status::lemma_from_bits_truncate(word);
    assert((word & KNOWN_BITS) & !KNOWN_BITS == 0) by (bit_vector);
}

/// A reading lies between -45.00 and +130.00 degrees and between 0.00 and
/// 100.00 percent.
pub proof fn lemma_reading_range(measurement: Measurement)
    requires
        is_reading(measurement),
    ensures
        -4500 <= measurement.temperature <= 13000,
        measurement.humidity <= 10000,
{
    let (temperature, humidity) = choose|temperature: u16, humidity: u16|
        measurement == #[trigger] measurement_from_words(temperature, humidity);
    lemma_centideg_range(temperature);
    lemma_centirh_range(humidity);
}

/// The requests that a transaction makes, one for each of `events`, when
/// the events reach it in order.
pub open spec fn actions_for<E>(transaction: Transaction, events: Seq<Event<E>>) -> Seq<Action<E>>
    decreases events.len(),
{
    if events.len() == 0 {
        Seq::empty()
    } else {
        let next = transaction.step_spec(events[0]);
        seq![next.1] + actions_for(next.0, events.subrange(1, events.len() as int))
    }
}

/// A step never changes the device addressed or the operation carried out.
pub proof fn lemma_step_keeps_target<E>(transaction: Transaction, event: Event<E>)
    ensures
        transaction.step_spec(event).0.address == transaction.address,
        transaction.step_spec(event).0.operation == transaction.operation,
{
}

/// A step either ignores its event, leaving the transaction as it was and
/// asking for nothing, or brings the transaction nearer to its end. So a
/// transaction ends after at most three answered requests.
pub proof fn lemma_step_progress<E>(transaction: Transaction, event: Event<E>)
    ensures
        ({
            let next = transaction.step_spec(event);
            ||| (next.0 == transaction && next.1 is Idle)
            ||| (next.0.phase.remaining() < transaction.phase.remaining() && !(next.1 is Idle))
        }),
{
}

/// A transaction hands out a result exactly when it ends, and the result
/// is one that its operation can end with.
pub proof fn lemma_finish_ends<E>(transaction: Transaction, event: Event<E>)
    ensures
        ({
            let next = transaction.step_spec(event);
            &&& next.1 is Finish <==> (next.0.phase is Finished && !(transaction.phase
                is Finished) && !(next.1 is Idle))
            &&& next.1 matches Action::Finish(result) ==> may_end_with(
                transaction.operation,
                result,
            )
        }),
{
    let next = transaction.step_spec(event);
    match next.1 {
        Action::Finish(Ok(Reply::Measurement(measurement))) => {
            let response = event->MeasurementRead_0->Ok_0;
            assert(measurement == measurement_from_words(
                group_word(response@, 0),
                group_word(response@, 3),
            ));
        },
        Action::Finish(Ok(Reply::Status(status))) => {
            let response = event->StatusRead_0->Ok_0;
            assert(status == Status::spec_from_bits_truncate(group_word(response@, 0)));
        },
        _ => {},
    }
}

/// A transaction never hands out half a measurement: it ends with a
/// reading only when a response was read in which both groups match their
/// checksums, and the reading is the conversion of that response's two
/// words.
pub proof fn lemma_reading_needs_both_groups<E>(transaction: Transaction, event: Event<E>)
    ensures
        transaction.step_spec(event).1 matches Action::Finish(Ok(Reply::Measurement(measurement)))
            ==> {
            &&& event matches Event::MeasurementRead(Ok(response))
            &&& group_ok(response@, 0)
            &&& group_ok(response@, 3)
            &&& measurement == measurement_from_words(
                group_word(response@, 0),
                group_word(response@, 3),
            )
        },
{
}

/// A measurement, from beginning to end: the single-shot command for the
/// clock-stretch mode and repeatability goes out, the wait is the longest
/// duration of a measurement at that repeatability, six bytes are read, and
/// the result is what the read gave, decoded.
pub proof fn lemma_measure_transaction<E>(
    address: Address,
    cs: ClockStretch,
    rpt: Repeatability,
    read: Result<[u8; MEASUREMENT_RESPONSE_LEN], E>,
)
    ensures
        ({
            let operation = Operation::Measure(cs, rpt);
            let begun = Transaction::start_spec(address, operation);
            let events = seq![
                Event::Written(Ok::<(), E>(())),
                Event::Delayed,
                Event::MeasurementRead(read),
            ];
            &&& Transaction::first_action::<E>(address, operation) == Action::<E>::Write {
                address: address.value_spec(),
                frame: Command::SingleShot(cs, rpt).frame(),
            }
            &&& actions_for(begun, events) == seq![
                Action::Delay { ms: rpt.max_duration_ms() as u32 },
                Action::ReadMeasurement { address: address.value_spec() },
                Action::Finish(measurement_outcome(read)),
            ]
        }),
{
    let operation = Operation::Measure(cs, rpt);
    let begun = Transaction::start_spec(address, operation);
    let events = seq![
        Event::Written(Ok::<(), E>(())),
        Event::Delayed,
        Event::MeasurementRead(read),
    ];
    lemma_three_actions(begun, events);
}

/// A status read, from beginning to end: the command goes out, the wait is
/// the shortest wait, three bytes are read, and the result is what the read
/// gave, decoded.
pub proof fn lemma_status_transaction<E>(
    address: Address,
    read: Result<[u8; STATUS_RESPONSE_LEN], E>,
)
    ensures
        ({
            let begun = Transaction::start_spec(address, Operation::Status);
            let events = seq![
                Event::Written(Ok::<(), E>(())),
                Event::Delayed,
                Event::StatusRead(read),
            ];
            &&& Transaction::first_action::<E>(address, Operation::Status) == Action::<E>::Write {
                address: address.value_spec(),
                frame: Command::Status.frame(),
            }
            &&& actions_for(begun, events) == seq![
                Action::Delay { ms: COMMAND_WAIT_TIME_MS as u32 },
                Action::ReadStatus { address: address.value_spec() },
                Action::Finish(status_outcome(read)),
            ]
        }),
{
    let begun = Transaction::start_spec(address, Operation::Status);
    let events = seq![
        Event::Written(Ok::<(), E>(())),
        Event::Delayed,
        Event::StatusRead(read),
    ];
    lemma_three_actions(begun, events);
}

/// A soft reset and a clearing of the status, from beginning to end: the
/// command goes out, the wait follows (the settle time after a reset, the
/// shortest wait after a clearing), and the operation ends without a read.
pub proof fn lemma_command_only_transaction<E>(address: Address, operation: Operation)
    requires
        operation is Reset || operation is ClearStatus,
    ensures
        ({
            let begun = Transaction::start_spec(address, operation);
            let events = seq![Event::Written(Ok::<(), E>(())), Event::Delayed];
            &&& Transaction::first_action::<E>(address, operation) == Action::<E>::Write {
                address: address.value_spec(),
                frame: (if operation is Reset {
                    Command::SoftReset
                } else {
                    Command::ClearStatus
                }).frame(),
            }
            &&& actions_for(begun, events) == seq![
                Action::Delay {
                    ms: if operation is Reset {
                        SOFT_RESET_TIME_MS as u32
                    } else {
                        COMMAND_WAIT_TIME_MS as u32
                    },
                },
                Action::Finish(Ok::<Reply, Error<E>>(Reply::Done)),
            ]
        }),
{
    let begun = Transaction::start_spec(address, operation);
    let events = seq![Event::Written(Ok::<(), E>(())), Event::Delayed];
    let first = begun.step_spec(events[0]);
    let rest = events.subrange(1, 2);
    let second = first.0.step_spec(rest[0]);
    assert(actions_for(second.0, rest.subrange(1, 1)) == Seq::<Action<E>>::empty());
    assert(actions_for(first.0, rest) == seq![second.1] + Seq::<Action<E>>::empty());
    assert(actions_for(begun, events) == seq![first.1] + actions_for(first.0, rest));
    assert(actions_for(begun, events) =~= seq![first.1, second.1]);
}

/// The requests for three events are those of three steps in a row.
proof fn lemma_three_actions<E>(transaction: Transaction, events: Seq<Event<E>>)
    requires
        events.len() == 3,
    ensures
        ({
            let first = transaction.step_spec(events[0]);
            let second = first.0.step_spec(events[1]);
            let third = second.0.step_spec(events[2]);
            actions_for(transaction, events) == seq![first.1, second.1, third.1]
        }),
{
    let first = transaction.step_spec(events[0]);
    let rest1 = events.subrange(1, 3);
    let second = first.0.step_spec(rest1[0]);
    let rest2 = rest1.subrange(1, 2);
    let third = second.0.step_spec(rest2[0]);
    assert(actions_for(third.0, rest2.subrange(1, 1)) == Seq::<Action<E>>::empty());
    assert(actions_for(second.0, rest2) == seq![third.1] + Seq::<Action<E>>::empty());
    assert(actions_for(first.0, rest1) == seq![second.1] + actions_for(second.0, rest2));
    assert(actions_for(transaction, events) == seq![first.1] + actions_for(first.0, rest1));
    assert(actions_for(transaction, events) =~= seq![first.1, second.1, third.1]);
}

/// A finished transaction stays finished and asks for nothing more.
pub proof fn lemma_finished_is_final<E>(transaction: Transaction, event: Event<E>)
    requires
        transaction.phase is Finished,
    ensures
        transaction.step_spec(event) == (transaction, Action::<E>::Idle),
{
}

/// When the write of the command fails, the transaction ends at once with
/// the transport's error as a bus error.
pub proof fn lemma_failed_write_ends_transaction<E>(
    address: Address,
    operation: Operation,
    error: E,
)
    ensures
        Transaction::start_spec(address, operation).step_spec(Event::Written(Err(error))) == (
            Transaction::start_spec(address, operation).at(Phase::Finished),
            Action::Finish(Err::<Reply, Error<E>>(Error::I2c(error))),
        ),
{
}

/// After a failed write nothing more is asked of the bus or of the delay,
/// whatever operation was begun and whatever is reported afterwards: the
/// first request after the failure is the end of the transaction with a bus
/// error, and every later event is ignored.
pub proof fn lemma_failed_write_stops_all<E>(
    address: Address,
    operation: Operation,
    error: E,
    events: Seq<Event<E>>,
)
    requires
        events.len() > 0,
        events[0] == Event::Written(Err::<(), E>(error)),
    ensures
        ({
            let actions = actions_for(Transaction::start_spec(address, operation), events);
            &&& actions.len() == events.len()
            &&& actions[0] == Action::Finish(Err::<Reply, Error<E>>(Error::I2c(error)))
            &&& forall|i: int| 1 <= i < actions.len() ==> actions[i] is Idle
        }),
{
    let begun = Transaction::start_spec(address, operation);
    let ended = begun.at(Phase::Finished);
    let rest = events.subrange(1, events.len() as int);
    lemma_failed_write_ends_transaction(address, operation, error);
    lemma_finished_ignores_all(ended, rest);
    let actions = actions_for(begun, events);
    assert(actions == seq![begun.step_spec(events[0]).1] + actions_for(ended, rest));
    assert forall|i: int| 1 <= i < actions.len() implies actions[i] is Idle by {
        assert(actions[i] == actions_for(ended, rest)[i - 1]);
    }
}

/// A finished transaction ignores every event that still reaches it.
pub proof fn lemma_finished_ignores_all<E>(transaction: Transaction, events: Seq<Event<E>>)
    requires
        transaction.phase is Finished,
    ensures
        actions_for(transaction, events).len() == events.len(),
        forall|i: int|
            0 <= i < events.len() ==> (#[trigger] actions_for(transaction, events)[i]) is Idle,
    decreases events.len(),
{
    if events.len() > 0 {
        let rest = events.subrange(1, events.len() as int);
        lemma_finished_is_final(transaction, events[0]);
        lemma_finished_ignores_all(transaction, rest);
        let actions = actions_for(transaction, events);
        assert(actions == seq![Action::<E>::Idle] + actions_for(transaction, rest));
        assert forall|i: int| 0 <= i < events.len() implies (#[trigger] actions[i]) is Idle by {
            if i > 0 {
                assert(actions[i] == actions_for(transaction, rest)[i - 1]);
            }
        }
    }
}

} // verus!
