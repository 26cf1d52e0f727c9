//! Word-level value transforms: round trips and the 32-bit split
//! convention (low word first, big-endian within each word).

use motor_rtu::codec::{
    decode_alarm, decode_bool, decode_direction, encode_bool, encode_direction, high_word,
    join_words, low_word, u32_be_bytes,
};
use motor_rtu::error::Error;
use motor_rtu::types::{AlarmCode, Direction};

#[test]
fn bool_round_trip() {
    for v in [false, true] {
        assert_eq!(decode_bool(encode_bool(v)), Ok(v));
    }
    assert_eq!(encode_bool(false), 0);
    assert_eq!(encode_bool(true), 1);
    assert_eq!(decode_bool(2), Err(Error::UnexpectedResponseData));
}

#[test]
fn direction_round_trip() {
    for d in [Direction::Clockwise, Direction::CounterClockwise] {
        assert_eq!(decode_direction(encode_direction(&d)), Ok(d));
    }
    assert_eq!(encode_direction(&Direction::Clockwise), 1);
    assert_eq!(encode_direction(&Direction::CounterClockwise), 0);
    assert_eq!(decode_direction(7), Err(Error::UnexpectedResponseData));
}

#[test]
fn alarm_decoding() {
    assert_eq!(decode_alarm(0), Ok(None));
    assert_eq!(decode_alarm(0x10), Ok(Some(AlarmCode::PowerFailure)));
    assert_eq!(decode_alarm(0x12), Ok(Some(AlarmCode::Overflow)));
    assert_eq!(decode_alarm(0x14), Ok(Some(AlarmCode::Block)));
    assert_eq!(decode_alarm(0x15), Ok(Some(AlarmCode::Overpressure)));
    assert_eq!(decode_alarm(0x11), Err(Error::UnexpectedResponseData));
}

#[test]
fn split_is_low_word_first() {
    // Encoding 0x11223344 must place 0x3344 at the base address and
    // 0x1122 at base + 1.
    assert_eq!(low_word(0x11223344), 0x3344);
    assert_eq!(high_word(0x11223344), 0x1122);
}

#[test]
fn split_join_round_trip() {
    assert_eq!(join_words(0x3344, 0x1122), 0x11223344);
    for v in [0u32, 1, 5, 0xFFFF, 0x10000, 0x11223344, u32::MAX] {
        assert_eq!(join_words(low_word(v), high_word(v)), v);
    }
}

#[test]
fn join_low_word_first() {
    // Raw words (0x0005, 0x0000) decode to the value 5.
    assert_eq!(join_words(0x0005, 0x0000), 5);
}

#[test]
fn custom_payload_is_plain_big_endian() {
    assert_eq!(u32_be_bytes(0x11223344), vec![0x11, 0x22, 0x33, 0x44]);
    assert_eq!(u32_be_bytes(5), vec![0, 0, 0, 5]);
}
