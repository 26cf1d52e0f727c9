//! Pure transforms between raw 16-bit register words and semantic values:
//! booleans, enumerations and the 32-bit composites that are split across
//! two registers.

use vstd::prelude::*;

use crate::error::Error;
use crate::types::{AlarmCode, Direction};

verus! {

/// A boolean parameter is written as 0 or 1.
pub open spec fn encode_bool_spec(v: bool) -> u16 {
    if v {
        1
    } else {
        0
    }
}

/// A boolean parameter reads back as 0 or 1; any other word is a
/// `UnexpectedResponseData` error.
pub open spec fn decode_bool_spec(w: u16) -> Result<bool, Error> {
    if w == 0 {
        Ok(false)
    } else if w == 1 {
        Ok(true)
    } else {
        Err(Error::UnexpectedResponseData)
    }
}

pub fn encode_bool(v: bool) -> (r: u16)
    ensures
        r == encode_bool_spec(v),
{
    if v {
        1
    } else {
        0
    }
}

pub fn decode_bool(w: u16) -> (r: Result<bool, Error>)
    ensures
        r == decode_bool_spec(w),
{
    if w == 0 {
        Ok(false)
    } else if w == 1 {
        Ok(true)
    } else {
        Err(Error::UnexpectedResponseData)
    }
}

/// Direction polarity is written as 0 (counter-clockwise) or 1 (clockwise).
pub open spec fn encode_direction_spec(d: Direction) -> u16 {
    match d {
        Direction::CounterClockwise => 0,
        Direction::Clockwise => 1,
    }
}

pub open spec fn decode_direction_spec(w: u16) -> Result<Direction, Error> {
    if w == 0 {
        Ok(Direction::CounterClockwise)
    } else if w == 1 {
        Ok(Direction::Clockwise)
    } else {
        Err(Error::UnexpectedResponseData)
    }
}

pub fn encode_direction(d: &Direction) -> (r: u16)
    ensures
        r == encode_direction_spec(*d),
{
    match d {
        Direction::CounterClockwise => 0,
        Direction::Clockwise => 1,
    }
}

pub fn decode_direction(w: u16) -> (r: Result<Direction, Error>)
    ensures
        r == decode_direction_spec(w),
{
    if w == 0 {
        Ok(Direction::CounterClockwise)
    } else if w == 1 {
        Ok(Direction::Clockwise)
    } else {
        Err(Error::UnexpectedResponseData)
    }
}

/// The alarm register reads 0 when no alarm is pending; the four known
/// alarm codes map to the enumeration; every other word is an error.
pub open spec fn decode_alarm_spec(w: u16) -> Result<Option<AlarmCode>, Error> {
    if w == 0 {
        Ok(None)
    } else if w == 0x10 {
        Ok(Some(AlarmCode::PowerFailure))
    } else if w == 0x12 {
        Ok(Some(AlarmCode::Overflow))
    } else if w == 0x14 {
        Ok(Some(AlarmCode::Block))
    } else if w == 0x15 {
        Ok(Some(AlarmCode::Overpressure))
    } else {
        Err(Error::UnexpectedResponseData)
    }
}

pub fn decode_alarm(w: u16) -> (r: Result<Option<AlarmCode>, Error>)
    ensures
        r == decode_alarm_spec(w),
{
    if w == 0 {
        Ok(None)
    } else if w == 0x10 {
        Ok(Some(AlarmCode::PowerFailure))
    } else if w == 0x12 {
        Ok(Some(AlarmCode::Overflow))
    } else if w == 0x14 {
        Ok(Some(AlarmCode::Block))
    } else if w == 0x15 {
        Ok(Some(AlarmCode::Overpressure))
    } else {
        Err(Error::UnexpectedResponseData)
    }
}

/// Bits 0-15 of a 32-bit value: the word stored at the parameter's base
/// register address (low word first).
pub open spec fn low_word_spec(v: u32) -> u16 {
    (v % 0x10000) as u16
}

/// Bits 16-31 of a 32-bit value: the word stored at base address + 1.
pub open spec fn high_word_spec(v: u32) -> u16 {
    (v / 0x10000) as u16
}

/// Reassemble a 32-bit value from its two register words, low word first.
pub open spec fn join_words_spec(lo: u16, hi: u16) -> u32 {
    (hi as u32 * 0x10000 + lo as u32) as u32
}

pub fn low_word(v: u32) -> (r: u16)
    ensures
        r == low_word_spec(v),
{
    (v % 0x10000) as u16
}

pub fn high_word(v: u32) -> (r: u16)
    ensures
        r == high_word_spec(v),
{
    (v / 0x10000) as u16
}

pub fn join_words(lo: u16, hi: u16) -> (r: u32)
    ensures
        r == join_words_spec(lo, hi),
{
    hi as u32 * 0x10000 + lo as u32
}

/// Law: the two-register split of a 32-bit value loses nothing — joining
/// the low and high words, low word first, reproduces the value exactly.
pub proof fn lemma_split_join_round_trip(v: u32)
    ensures
        join_words_spec(low_word_spec(v), high_word_spec(v)) == v,
{
    assert(v as int == 0x10000 * (v as int / 0x10000) + v as int % 0x10000) by (nonlinear_arith);
}

/// Law: joining two register words and splitting again returns the very
/// same words, so the split is also injective.
pub proof fn lemma_join_split_round_trip(lo: u16, hi: u16)
    ensures
        low_word_spec(join_words_spec(lo, hi)) == lo,
        high_word_spec(join_words_spec(lo, hi)) == hi,
{
    assert((hi as int * 0x10000 + lo as int) % 0x10000 == lo as int) by (nonlinear_arith)
        requires
            0 <= lo < 0x10000,
            0 <= hi < 0x10000,
    ;
    assert((hi as int * 0x10000 + lo as int) / 0x10000 == hi as int) by (nonlinear_arith)
        requires
            0 <= lo < 0x10000,
            0 <= hi < 0x10000,
    ;
}

/// Law: a boolean value survives the encode/decode round trip.
pub proof fn lemma_bool_round_trip(v: bool)
    ensures
        decode_bool_spec(encode_bool_spec(v)) == Ok::<bool, Error>(v),
{
}

/// Law: a direction value survives the encode/decode round trip.
pub proof fn lemma_direction_round_trip(d: Direction)
    ensures
        decode_direction_spec(encode_direction_spec(d)) == Ok::<Direction, Error>(d),
{
}

/// The four big-endian bytes of a 32-bit value, most significant first:
/// the raw payload layout of the custom position-write function codes.
pub open spec fn be_bytes_spec(v: u32) -> Seq<u8> {
    seq![
        (v / 0x1000000) as u8,
        ((v / 0x10000) % 0x100) as u8,
        ((v / 0x100) % 0x100) as u8,
        (v % 0x100) as u8,
    ]
}

pub fn u32_be_bytes(v: u32) -> (r: Vec<u8>)
    ensures
        r@ == be_bytes_spec(v),
{
    let mut r: Vec<u8> = Vec::new();
    r.push((v / 0x1000000) as u8);
    r.push(((v / 0x10000) % 0x100) as u8);
    r.push(((v / 0x100) % 0x100) as u8);
    r.push((v % 0x100) as u8);
    proof {
        assert(r@ =~= be_bytes_spec(v));
    }
    r
}

} // verus!
