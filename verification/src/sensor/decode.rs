//! Signed 16-bit readings from pairs of register bytes, and the division
//! that scales them.

use byteorder::{ByteOrder, LittleEndian};
use vstd::prelude::*;

verus! {

/// The 16-bit pattern whose upper byte is `high` and whose lower byte is `low`.
pub open spec fn unsigned_word(high: u8, low: u8) -> int {
    256 * high + low
}

/// The two's-complement value of that pattern: patterns with the top bit
/// set stand for the negative numbers.
pub open spec fn signed_word(high: u8, low: u8) -> int {
    if high >= 128 {
        unsigned_word(high, low) - 65536
    } else {
        unsigned_word(high, low)
    }
}

/// `signed_word` is the one number in the range of `i16` that is congruent
/// to the pattern modulo 2^16, and every number of that range is the value
/// of exactly one pair of bytes.
pub proof fn lemma_signed_word_is_twos_complement(high: u8, low: u8)
    ensures
        -32768 <= signed_word(high, low) <= 32767,
        (signed_word(high, low) - unsigned_word(high, low)) % 65536 == 0,
        forall|h: u8, l: u8| signed_word(h, l) == signed_word(high, low) ==> h == high && l == low,
{
}

/// The quotient of `a` by `b` rounded towards zero, for `b` other than zero.
pub open spec fn quotient_towards_zero(a: int, b: int) -> int {
    if a >= 0 && b > 0 {
        a / b
    } else if a < 0 && b > 0 {
        -((-a) / b)
    } else if a >= 0 && b < 0 {
        -(a / (-b))
    } else {
        (-a) / (-b)
    }
}

/// `byteorder::LittleEndian::read_u16`: the unsigned number whose low byte
/// is `bytes[0]` and whose high byte is `bytes[1]`. The function panics on
/// fewer than two bytes, so two are required.
#[verifier::external_body]
pub(crate) fn little_endian_u16(bytes: &[u8]) -> (word: u16)
    requires
        bytes@.len() >= 2,
    ensures
        word == unsigned_word(bytes@[1], bytes@[0]),
{
    LittleEndian::read_u16(bytes)
}

/// The signed reading whose most significant byte is `msb`.
pub fn big_endian_i16(msb: u8, lsb: u8) -> (value: i16)
    ensures
        value == signed_word(msb, lsb),
{
    let value = ((msb as i16) << 8) | (lsb as i16);
    assert(((msb as i16) << 8) | (lsb as i16) == (if msb >= 128 {
        256 * msb + lsb - 65536
    } else {
        256 * msb + lsb
    })) by (bit_vector);
    value
}

} // verus!
