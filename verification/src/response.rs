//! Decoding of the sensor's responses: each is a run of three-byte groups,
//! two data bytes followed by their checksum.

use crate::bus::Error;
use crate::convert::{convert_humidity, convert_temperature, raw_to_centideg, raw_to_centirh};
use crate::crc::{check_crc, crc8_of, lemma_crc8_detects_one_byte_error, word_of};
use crate::status::Status;
use vstd::prelude::*;

verus! {

/// Number of bytes in the response to a single-shot measurement.
pub const MEASUREMENT_RESPONSE_LEN: usize = 6;

/// Number of bytes in the response to a status read.
pub const STATUS_RESPONSE_LEN: usize = 3;

/// A temperature and humidity reading.
#[derive(Debug, Clone, Copy, PartialEq, Eq, Structural)]
pub struct Measurement {
    /// Temperature in hundredths of a degree Celsius.
    pub temperature: i32,
    /// Relative humidity in hundredths of a percent.
    pub humidity: u16,
}

/// Whether the group that starts at index `at` of a response matches its
/// checksum.
pub open spec fn group_ok(response: Seq<u8>, at: int) -> bool
    recommends
        0 <= at,
        at + 3 <= response.len(),
{
    crc8_of(response[at], response[at + 1]) == response[at + 2]
}

/// The 16-bit word of the group that starts at index `at` of a response,
/// high byte first.
pub open spec fn group_word(response: Seq<u8>, at: int) -> u16
    recommends
        0 <= at,
        at + 3 <= response.len(),
{
    word_of(response[at], response[at + 1])
}

/// The reading that a pair of raw words stands for.
pub open spec fn measurement_from_words(temperature: u16, humidity: u16) -> Measurement {
    Measurement {
        temperature: raw_to_centideg(temperature) as i32,
        humidity: raw_to_centirh(humidity) as u16,
    }
}

/// The reading carried by a six-byte measurement response: the first group
/// is the temperature, the second the humidity. There is none unless both
/// groups match their checksums.
pub open spec fn measurement_of(response: Seq<u8>) -> Option<Measurement>
    recommends
        response.len() == 6,
{
    if group_ok(response, 0) && group_ok(response, 3) {
        Some(measurement_from_words(group_word(response, 0), group_word(response, 3)))
    } else {
        None
    }
}

/// The raw status word carried by a three-byte status response, if its
/// group matches its checksum.
pub open spec fn status_word_of(response: Seq<u8>) -> Option<u16>
    recommends
        response.len() == 3,
{
    if group_ok(response, 0) {
        Some(group_word(response, 0))
    } else {
        None
    }
}

/// What a measurement transaction returns for a response.
pub open spec fn measurement_result<E>(response: Seq<u8>) -> Result<Measurement, Error<E>>
    recommends
        response.len() == 6,
{
    match measurement_of(response) {
        Some(measurement) => Ok(measurement),
        None => Err(Error::Crc),
    }
}

/// What a status transaction returns for a response.
pub open spec fn status_result<E>(response: Seq<u8>) -> Result<Status, Error<E>>
    recommends
        response.len() == 3,
{
    match status_word_of(response) {
        Some(word) => Ok(Status::spec_from_bits_truncate(word)),
        None => Err(Error::Crc),
    }
}

/// Validates a measurement response and converts its two words.
pub fn decode_measurement<E>(response: &[u8; MEASUREMENT_RESPONSE_LEN]) -> (result: Result<
    Measurement,
    Error<E>,
>)
    ensures
        result == measurement_result::<E>(response@),
{
    let temperature: i32 = match check_crc::<E>([response[0], response[1]], response[2]) {
        Ok(raw) => convert_temperature(raw),
        Err(_) => {
            return Err(Error::Crc);
        },
    };
    let humidity: u16 = match check_crc::<E>([response[3], response[4]], response[5]) {
        Ok(raw) => convert_humidity(raw),
        Err(_) => {
            return Err(Error::Crc);
        },
    };
    Ok(Measurement { temperature, humidity })
}

/// Validates a status response and reads the flags out of its word.
pub fn decode_status<E>(response: &[u8; STATUS_RESPONSE_LEN]) -> (result: Result<Status, Error<E>>)
    ensures
        result == status_result::<E>(response@),
{
    match check_crc::<E>([response[0], response[1]], response[2]) {
        Ok(word) => Ok(Status::from_bits_truncate(word)),
        Err(_) => Err(Error::Crc),
    }
}

/// A measurement response in which one payload byte differs from a valid
/// response, the checksums being those of the valid one, carries no reading.
/// A payload with one flipped bit is such a response.
pub proof fn lemma_payload_error_rejected(response: Seq<u8>, at: int, byte: u8)
    requires
        response.len() == 6,
        measurement_of(response) is Some,
        at == 0 || at == 1 || at == 3 || at == 4,
        byte != response[at],
    ensures
        measurement_of(response.update(at, byte)) is None,
{
    let changed = response.update(at, byte);
    if at < 3 {
        lemma_crc8_detects_one_byte_error(response[0], response[1], changed[0], changed[1]);
        assert(!group_ok(changed, 0));
    } else {
        lemma_crc8_detects_one_byte_error(response[3], response[4], changed[3], changed[4]);
        assert(!group_ok(changed, 3));
    }
}

/// A status response in which one payload byte differs from a valid
/// response, the checksum being that of the valid one, carries no word.
pub proof fn lemma_status_payload_error_rejected(response: Seq<u8>, at: int, byte: u8)
    requires
        response.len() == 3,
        status_word_of(response) is Some,
        at == 0 || at == 1,
        byte != response[at],
    ensures
        status_word_of(response.update(at, byte)) is None,
{
    let changed = response.update(at, byte);
    lemma_crc8_detects_one_byte_error(response[0], response[1], changed[0], changed[1]);
    assert(!group_ok(changed, 0));
}

} // verus!
