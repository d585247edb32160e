//! CRC-8 checksum that guards every two-byte group the sensor sends
//! (polynomial x^8 + x^5 + x^4 + 1, initial value 0xFF).

use crate::bus::Error;
use vstd::prelude::*;

verus! {

/// Initial value of the checksum accumulator.
pub const CRC8_INIT: u8 = 0xff;

/// The generator polynomial without its leading term.
pub const CRC8_POLYNOMIAL: u8 = 0x31;

/// One shift of the checksum register: the register moves left by one bit,
/// and the polynomial is folded in when the bit shifted out was set.
pub open spec fn crc8_shift(crc: u8) -> u8 {
    if crc & 0x80 != 0 {
        (crc << 1) ^ CRC8_POLYNOMIAL
    } else {
        crc << 1
    }
}

/// `n` shifts of the checksum register.
pub open spec fn crc8_shifts(crc: u8, n: nat) -> u8
    decreases n,
{
    if n == 0 {
        crc
    } else {
        crc8_shift(crc8_shifts(crc, (n - 1) as nat))
    }
}

/// The register after one more message byte: the byte is folded into the
/// register, which is then shifted eight times.
pub open spec fn crc8_update(crc: u8, byte: u8) -> u8 {
    crc8_shift(
        crc8_shift(
            crc8_shift(
                crc8_shift(crc8_shift(crc8_shift(crc8_shift(crc8_shift(crc ^ byte))))),
            ),
        ),
    )
}

/// Checksum of the two-byte group `first`, `second`.
pub open spec fn crc8_of(first: u8, second: u8) -> u8 {
    crc8_update(crc8_update(CRC8_INIT, first), second)
}

/// The 16-bit word that the group `first`, `second` carries: `first` is its
/// high byte.
pub open spec fn word_of(first: u8, second: u8) -> u16 {
    (first * 256 + second) as u16
}

/// Checksum of the two bytes of a 16-bit word, high byte first.
pub open spec fn crc8_of_word(word: u16) -> u8 {
    crc8_of((word / 256) as u8, (word % 256) as u8)
}

/// Eight shifts, written out, are what `crc8_update` applies.
proof fn lemma_eight_shifts(crc: u8)
    ensures
        crc8_shifts(crc, 8) == crc8_shift(
            crc8_shift(
                crc8_shift(crc8_shift(crc8_shift(crc8_shift(crc8_shift(crc8_shift(crc)))))),
            ),
        ),
{
    reveal_with_fuel(crc8_shifts, 9);
}

/// Calculates the CRC-8 checksum of a two-byte group.
pub fn crc8(data: [u8; 2]) -> (crc: u8)
    ensures
        crc == crc8_of(data[0], data[1]),
{
    let mut crc: u8 = CRC8_INIT;
    let mut i: usize = 0;
    while i < 2
        invariant
            i <= 2,
            i == 0 ==> crc == CRC8_INIT,
            i == 1 ==> crc == crc8_update(CRC8_INIT, data[0]),
            i == 2 ==> crc == crc8_of(data[0], data[1]),
        decreases 2 - i,
    {
        let ghost before = crc;
        let byte: u8 = data[i];
        crc = crc ^ byte;
        let ghost folded = crc;
        let mut round: u8 = 0;
        while round < 8
            invariant
                round <= 8,
                crc == crc8_shifts(folded, round as nat),
            decreases 8 - round,
        {
            if crc & 0x80 > 0 {
                crc = (crc << 1) ^ CRC8_POLYNOMIAL;
            } else {
                crc = crc << 1;
            }
            round = round + 1;
        }
        proof {
            lemma_eight_shifts(folded);
            assert(crc == crc8_update(before, byte));
        }
        i = i + 1;
    }
    crc
}

/// Compares the checksum of a two-byte group to the checksum received with
/// it, and returns the group's 16-bit word when they agree.
pub fn check_crc<E>(data: [u8; 2], crc: u8) -> (word: Result<u16, Error<E>>)
    ensures
        word is Ok <==> crc8_of(data[0], data[1]) == crc,
        word matches Ok(w) ==> w == word_of(data[0], data[1]),
        word matches Err(e) ==> e is Crc,
{
    let calculated_crc: u8 = crc8(data);
    if calculated_crc == crc {
        let high: u16 = data[0] as u16;
        let low: u16 = data[1] as u16;
        let word: u16 = (high << 8) | low;
        assert(((high << 8) | low) == high * 256 + low) by (bit_vector)
            requires
                high < 256,
                low < 256,
        ;
        Ok(word)
    } else {
        Err(Error::Crc)
    }
}

/// One shift of the register loses nothing: different registers stay
/// different.
pub proof fn lemma_crc8_shift_injective(a: u8, b: u8)
    requires
        a != b,
    ensures
        crc8_shift(a) != crc8_shift(b),
{
    assert(a != b ==> crc8_shift(a) != crc8_shift(b)) by (bit_vector);
}

/// Folding in a byte keeps different registers different, and different
/// bytes lead one register to different registers.
pub proof fn lemma_crc8_update_injective(crc1: u8, byte1: u8, crc2: u8, byte2: u8)
    requires
        (crc1 == crc2 && byte1 != byte2) || (crc1 != crc2 && byte1 == byte2),
    ensures
        crc8_update(crc1, byte1) != crc8_update(crc2, byte2),
{
    let x0 = crc1 ^ byte1;
    let y0 = crc2 ^ byte2;
    assert(x0 != y0) by (bit_vector)
        requires
            (crc1 == crc2 && byte1 != byte2) || (crc1 != crc2 && byte1 == byte2),
            x0 == crc1 ^ byte1,
            y0 == crc2 ^ byte2,
    ;
    let x1 = crc8_shift(x0);
    let y1 = crc8_shift(y0);
    lemma_crc8_shift_injective(x0, y0);
    let x2 = crc8_shift(x1);
    let y2 = crc8_shift(y1);
    lemma_crc8_shift_injective(x1, y1);
    let x3 = crc8_shift(x2);
    let y3 = crc8_shift(y2);
    lemma_crc8_shift_injective(x2, y2);
    let x4 = crc8_shift(x3);
    let y4 = crc8_shift(y3);
    lemma_crc8_shift_injective(x3, y3);
    let x5 = crc8_shift(x4);
    let y5 = crc8_shift(y4);
    lemma_crc8_shift_injective(x4, y4);
    let x6 = crc8_shift(x5);
    let y6 = crc8_shift(y5);
    lemma_crc8_shift_injective(x5, y5);
    let x7 = crc8_shift(x6);
    let y7 = crc8_shift(y6);
    lemma_crc8_shift_injective(x6, y6);
    lemma_crc8_shift_injective(x7, y7);
}

/// An error confined to one byte of a two-byte group changes the group's
/// checksum, so the group never passes validation against the old checksum.
pub proof fn lemma_crc8_detects_one_byte_error(first: u8, second: u8, first2: u8, second2: u8)
    requires
        (first != first2 && second == second2) || (first == first2 && second != second2),
    ensures
        crc8_of(first2, second2) != crc8_of(first, second),
{
    if first != first2 {
        lemma_crc8_update_injective(CRC8_INIT, first, CRC8_INIT, first2);
    }
    lemma_crc8_update_injective(
        crc8_update(CRC8_INIT, first),
        second,
        crc8_update(CRC8_INIT, first2),
        second2,
    );
}

/// The word `word` with bit `bit` flipped (bit 0 is the lowest).
pub open spec fn flip_bit(word: u16, bit: u16) -> u16 {
    word ^ (1u16 << bit)
}

/// Flipping any single bit of a 16-bit word changes the checksum of its two
/// bytes: with the old checksum the changed word is never accepted.
pub proof fn lemma_crc8_detects_single_bit_flip(word: u16, bit: u16)
    requires
        bit < 16,
    ensures
        crc8_of_word(flip_bit(word, bit)) != crc8_of_word(word),
{
    let flipped = flip_bit(word, bit);
    assert({
        ||| (flipped / 256 != word / 256 && flipped % 256 == word % 256)
        ||| (flipped / 256 == word / 256 && flipped % 256 != word % 256)
    }) by (bit_vector)
        requires
            bit < 16,
            flipped == word ^ (1u16 << bit),
    ;
    lemma_crc8_detects_one_byte_error(
        (word / 256) as u8,
        (word % 256) as u8,
        (flipped / 256) as u8,
        (flipped % 256) as u8,
    );
}

} // verus!
