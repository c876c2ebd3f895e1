//! Reading bytes and words as signed numbers and putting words together.

use vstd::prelude::*;

verus! {

/// A 16-bit word read as a two's complement number and widened to 32 bits.
pub open spec fn sign_extend_word(value: u16) -> u32 {
    if value >= 0x8000 {
        (value + 0xFFFF_0000) as u32
    } else {
        value as u32
    }
}

/// A byte read as a two's complement number.
pub open spec fn signed_byte(value: u8) -> i8 {
    if value >= 0x80 {
        (value - 0x100) as i8
    } else {
        value as i8
    }
}

/// A 16-bit word read as a two's complement number.
pub open spec fn signed_word(value: u16) -> i16 {
    if value >= 0x8000 {
        (value - 0x1_0000) as i16
    } else {
        value as i16
    }
}

/// The long word with the given high and low words.
pub open spec fn long_from_words(high: u16, low: u16) -> u32 {
    (high * 0x1_0000 + low) as u32
}

pub fn extend_word(value: u16) -> (extended: u32)
    ensures
        extended == sign_extend_word(value),
{
    if value >= 0x8000 {
        value as u32 + 0xFFFF_0000
    } else {
        value as u32
    }
}

pub fn byte_as_signed(value: u8) -> (signed: i8)
    ensures
        signed == signed_byte(value),
{
    if value >= 0x80 {
        (value as i16 - 0x100) as i8
    } else {
        value as i8
    }
}

pub fn word_as_signed(value: u16) -> (signed: i16)
    ensures
        signed == signed_word(value),
{
    if value >= 0x8000 {
        (value as i32 - 0x1_0000) as i16
    } else {
        value as i16
    }
}

pub fn make_long(high: u16, low: u16) -> (long: u32)
    ensures
        long == long_from_words(high, low),
{
    high as u32 * 0x1_0000 + low as u32
}

/// Reading as a signed number and sign extension agree with the casts
/// through the signed types.
pub proof fn lemma_signed_as_cast(byte: u8, word: u16)
    by (bit_vector)
    ensures
        sign_extend_word(word) == word as i16 as i32 as u32,
        signed_byte(byte) == byte as i8,
        signed_word(word) == word as i16,
{
}

} // verus!
