//! Conversion of raw 16-bit sensor words to fixed-point physical units.

use vstd::prelude::*;

verus! {

/// Temperature in hundredths of a degree Celsius for a raw sensor word:
/// the 16-bit range is scaled linearly onto -45.00 .. +130.00 and truncated.
pub open spec fn raw_to_centideg(raw: u16) -> int {
    -4500 + (17500 * raw) / 65535
}

/// Relative humidity in hundredths of a percent for a raw sensor word:
/// the 16-bit range is scaled linearly onto 0.00 .. 100.00 and truncated.
pub open spec fn raw_to_centirh(raw: u16) -> int {
    (10000 * raw) / 65535
}

/// Converts a raw temperature word to hundredths of a degree Celsius.
pub fn convert_temperature(raw: u16) -> (centideg: i32)
    ensures
        centideg == raw_to_centideg(raw),
{
    -4500 + (17500 * (raw as i32)) / 65535
}

/// Converts a raw humidity word to hundredths of a percent relative humidity.
pub fn convert_humidity(raw: u16) -> (centirh: u16)
    ensures
        centirh == raw_to_centirh(raw),
{
    ((10000 * (raw as u32)) / 65535) as u16
}

/// The temperature conversion never decreases as the raw word grows.
pub proof fn lemma_centideg_monotonic(lower: u16, upper: u16)
    requires
        lower <= upper,
    ensures
        raw_to_centideg(lower) <= raw_to_centideg(upper),
{
}

/// The humidity conversion never decreases as the raw word grows.
pub proof fn lemma_centirh_monotonic(lower: u16, upper: u16)
    requires
        lower <= upper,
    ensures
        raw_to_centirh(lower) <= raw_to_centirh(upper),
{
}

/// The temperature conversion starts at -45.00 degrees, stays below +130.00
/// degrees for every raw word but the largest, and reaches +130.00 there.
pub proof fn lemma_centideg_range(raw: u16)
    ensures
        raw_to_centideg(0) == -4500,
        -4500 <= raw_to_centideg(raw) <= 13000,
        raw < 65535 ==> raw_to_centideg(raw) <= 12999,
        raw == 65535 ==> raw_to_centideg(raw) == 13000,
{
}

/// The humidity conversion starts at 0.00 percent, stays below 100.00
/// percent for every raw word but the largest, and reaches 100.00 there.
pub proof fn lemma_centirh_range(raw: u16)
    ensures
        raw_to_centirh(0) == 0,
        0 <= raw_to_centirh(raw) <= 10000,
        raw < 65535 ==> raw_to_centirh(raw) <= 9999,
        raw == 65535 ==> raw_to_centirh(raw) == 10000,
{
}

} // verus!
