//! The parameter access layer: the register map, the four access
//! primitives every named parameter is built from, and one
//! request-builder / response-parser pair per physical parameter.
//!
//! A getter is a pair: `<name>_request()` builds the read request, and
//! `parse_<name>(resp)` checks the word count and decodes the raw words.
//! A setter is the pair `set_<name>_request(value)` /
//! `parse_set_<name>(..)`, the latter verifying the device's echo against
//! what was sent.

use vstd::prelude::*;

use crate::codec::{
    be_bytes_spec, decode_alarm, decode_alarm_spec, decode_bool, decode_bool_spec,
    decode_direction, decode_direction_spec, encode_bool, encode_bool_spec, encode_direction,
    encode_direction_spec, high_word, high_word_spec, join_words, join_words_spec, low_word,
    low_word_spec, u32_be_bytes,
};
use crate::error::Error;
use crate::frame::{Request, Response, ResponseView};
use crate::types::{AlarmCode, Direction, RtuBaud};

verus! {

/// Extracting the single word of a one-register read: the response must
/// be a holding-register read reporting exactly one word.
pub open spec fn read_one_result(resp: ResponseView) -> Result<u16, Error> {
    match resp {
        ResponseView::ReadHoldingRegisters(words) => if words.len() == 1 {
            Ok(words[0])
        } else {
            Err(Error::UnexpectedResponseLength(words.len() as usize, 1))
        },
        _ => Err(Error::UnexpectedResponseType),
    }
}

/// Extracting the two words of a two-register read: the response must be
/// a holding-register read reporting exactly two words, returned in
/// register order `(word0, word1)`.
pub open spec fn read_two_result(resp: ResponseView) -> Result<(u16, u16), Error> {
    match resp {
        ResponseView::ReadHoldingRegisters(words) => if words.len() == 2 {
            Ok((words[0], words[1]))
        } else {
            Err(Error::UnexpectedResponseLength(words.len() as usize, 2))
        },
        _ => Err(Error::UnexpectedResponseType),
    }
}

/// Echo verification of a single-register write: the reply must restate
/// the address and value that were sent.
pub open spec fn write_one_result(address: u16, data: u16, resp: ResponseView) -> Result<
    (),
    Error,
> {
    match resp {
        ResponseView::WriteSingleRegister(a, d) => if a == address && d == data {
            Ok(())
        } else {
            Err(Error::UnexpectedResponseData)
        },
        _ => Err(Error::UnexpectedResponseType),
    }
}

/// Echo verification of a two-register write: the reply must be a
/// multi-register write echo with word count 2 and the starting address
/// that was sent.  A multi-register write echo with any other address or
/// count is the right operation restating wrong data.
pub open spec fn write_two_result(address: u16, resp: ResponseView) -> Result<(), Error> {
    match resp {
        ResponseView::WriteMultipleRegisters(a, count) => if a == address && count == 2 {
            Ok(())
        } else {
            Err(Error::UnexpectedResponseData)
        },
        _ => Err(Error::UnexpectedResponseType),
    }
}

/// Echo verification of a custom-function write: the reply must carry the
/// same function code and restate the payload bytes exactly.
pub open spec fn custom_echo_result(fc: u8, value: u32, resp: ResponseView) -> Result<(), Error> {
    match resp {
        ResponseView::Custom(f, d) => if f == fc {
            if d == be_bytes_spec(value) {
                Ok(())
            } else {
                Err(Error::UnexpectedResponseData)
            }
        } else {
            Err(Error::UnexpectedResponseType)
        },
        _ => Err(Error::UnexpectedResponseType),
    }
}

/// Law: a holding-register read reporting a word count different from
/// what the parameter expects yields `UnexpectedResponseLength(actual,
/// expected)`, and no value is produced.
pub proof fn lemma_wrong_word_count_is_length_error(words: Seq<u16>)
    ensures
        words.len() != 1 ==> read_one_result(ResponseView::ReadHoldingRegisters(words))
            == Err::<u16, Error>(Error::UnexpectedResponseLength(words.len() as usize, 1)),
        words.len() != 2 ==> read_two_result(ResponseView::ReadHoldingRegisters(words))
            == Err::<(u16, u16), Error>(Error::UnexpectedResponseLength(words.len() as usize, 2)),
{
}

/// Law: echo verification accepts exactly the faithful echo — a
/// single-register write is reported successful if and only if the
/// reply restates the address and the value that were sent, so a
/// misrouted or stale reply can never pass as success.
pub proof fn lemma_write_echo_exact(address: u16, data: u16, resp: ResponseView)
    ensures
        write_one_result(address, data, resp) == Ok::<(), Error>(()) <==> resp
            == ResponseView::WriteSingleRegister(address, data),
{
}

pub fn read_one_request(address: u16) -> (r: Request)
    ensures
        r == Request::ReadHoldingRegisters(address, 1),
{
    Request::ReadHoldingRegisters(address, 1)
}

pub fn read_two_request(address: u16) -> (r: Request)
    ensures
        r == Request::ReadHoldingRegisters(address, 2),
{
    Request::ReadHoldingRegisters(address, 2)
}

pub fn write_one_request(address: u16, data: u16) -> (r: Request)
    ensures
        r == Request::WriteSingleRegister(address, data),
{
    Request::WriteSingleRegister(address, data)
}

pub fn parse_read_one(resp: &Response) -> (r: Result<u16, Error>)
    ensures
        r == read_one_result(resp@),
{
    match resp {
        Response::ReadHoldingRegisters(words) => if words.len() == 1 {
            Ok(words[0])
        } else {
            Err(Error::UnexpectedResponseLength(words.len(), 1))
        },
        _ => Err(Error::UnexpectedResponseType),
    }
}

pub fn parse_read_two(resp: &Response) -> (r: Result<(u16, u16), Error>)
    ensures
        r == read_two_result(resp@),
{
    match resp {
        Response::ReadHoldingRegisters(words) => if words.len() == 2 {
            Ok((words[0], words[1]))
        } else {
            Err(Error::UnexpectedResponseLength(words.len(), 2))
        },
        _ => Err(Error::UnexpectedResponseType),
    }
}

pub fn parse_write_one(address: u16, data: u16, resp: &Response) -> (r: Result<(), Error>)
    ensures
        r == write_one_result(address, data, resp@),
{
    match resp {
        Response::WriteSingleRegister(a, d) => if *a == address && *d == data {
            Ok(())
        } else {
            Err(Error::UnexpectedResponseData)
        },
        _ => Err(Error::UnexpectedResponseType),
    }
}

pub fn parse_write_two(address: u16, resp: &Response) -> (r: Result<(), Error>)
    ensures
        r == write_two_result(address, resp@),
{
    match resp {
        Response::WriteMultipleRegisters(a, count) => if *a == address && *count == 2 {
            Ok(())
        } else {
            Err(Error::UnexpectedResponseData)
        },
        _ => Err(Error::UnexpectedResponseType),
    }
}

/// Byte-for-byte comparison of two byte vectors.
fn bytes_eq(a: &Vec<u8>, b: &Vec<u8>) -> (r: bool)
    ensures
        r == (a@ == b@),
{
    if a.len() != b.len() {
        assert(a@ != b@);
        return false;
    }
    let mut i: usize = 0;
    while i < a.len()
        invariant
            i <= a.len(),
            a@.len() == b@.len(),
            forall|j: int| 0 <= j < i ==> a@[j] == b@[j],
        decreases a@.len() - i,
    {
        if a[i] != b[i] {
            assert(a@ != b@);
            return false;
        }
        i = i + 1;
    }
    proof {
        assert(a@ =~= b@);
    }
    true
}

pub fn parse_custom_echo(fc: u8, value: u32, resp: &Response) -> (r: Result<(), Error>)
    ensures
        r == custom_echo_result(fc, value, resp@),
{
    let expected = u32_be_bytes(value);
    match resp {
        Response::Custom(f, d) => if *f == fc {
            if bytes_eq(d, &expected) {
                Ok(())
            } else {
                Err(Error::UnexpectedResponseData)
            }
        } else {
            Err(Error::UnexpectedResponseType)
        },
        _ => Err(Error::UnexpectedResponseType),
    }
}

// ---------------------------------------------------------------------
// The register map.  Addresses are the authoritative per-parameter
// contract; word counts are 1 unless noted.
// ---------------------------------------------------------------------

pub const REG_MODBUS_ENABLED: u16 = 0x00;

pub const REG_DRIVE_ENABLED: u16 = 0x01;

pub const REG_TARGET_RPM: u16 = 0x02;

pub const REG_ACCELERATION: u16 = 0x03;

pub const REG_WEAK_MAGNETIC_ANGLE: u16 = 0x04;

pub const REG_SPEED_KP: u16 = 0x05;

pub const REG_SPEED_I_TIME: u16 = 0x06;

pub const REG_POSITION_KP: u16 = 0x07;

pub const REG_SPEED_FEED: u16 = 0x08;

pub const REG_DIR_POLARITY: u16 = 0x09;

pub const REG_GEAR_NUMERATOR: u16 = 0x0A;

pub const REG_GEAR_DENOMINATOR: u16 = 0x0B;

/// Two registers, 0x0C-0x0D, low word first.
pub const REG_TARGET_POSITION: u16 = 0x0C;

pub const REG_ALARM_CODE: u16 = 0x0E;

pub const REG_CURRENT: u16 = 0x0F;

pub const REG_SPEED: u16 = 0x10;

pub const REG_VOLTAGE: u16 = 0x11;

pub const REG_TEMPERATURE: u16 = 0x12;

pub const REG_PWM: u16 = 0x13;

pub const REG_PARAMETER_SAVE_FLAG: u16 = 0x14;

pub const REG_DEVICE_ADDRESS: u16 = 0x15;

/// Two registers, 0x16-0x17, low word first.
pub const REG_ABSOLUTE_POSITION: u16 = 0x16;

pub const REG_STILL_MAX_CURRENT: u16 = 0x18;

pub const REG_SPECIFIC_FUNCTION: u16 = 0x19;

/// Custom function code that sets the target position from four raw
/// big-endian payload bytes.
pub const FC_SET_TARGET_POSITION: u8 = 0x78;

/// Custom function code that sets the absolute position from four raw
/// big-endian payload bytes.
pub const FC_SET_ABSOLUTE_POSITION: u8 = 0x7B;

// ---------------------------------------------------------------------
// Shared decode compositions.
// ---------------------------------------------------------------------

/// A one-word read decoded as a 0/1 boolean.
pub open spec fn bool_param_result(resp: ResponseView) -> Result<bool, Error> {
    match read_one_result(resp) {
        Ok(w) => decode_bool_spec(w),
        Err(e) => Err(e),
    }
}

/// A one-word read decoded as a direction polarity.
pub open spec fn direction_param_result(resp: ResponseView) -> Result<Direction, Error> {
    match read_one_result(resp) {
        Ok(w) => decode_direction_spec(w),
        Err(e) => Err(e),
    }
}

/// A one-word read decoded as an optional alarm code.
pub open spec fn alarm_param_result(resp: ResponseView) -> Result<Option<AlarmCode>, Error> {
    match read_one_result(resp) {
        Ok(w) => decode_alarm_spec(w),
        Err(e) => Err(e),
    }
}

/// A two-word read joined into a 32-bit value, low word first.
pub open spec fn dword_param_result(resp: ResponseView) -> Result<u32, Error> {
    match read_two_result(resp) {
        Ok((lo, hi)) => Ok(join_words_spec(lo, hi)),
        Err(e) => Err(e),
    }
}

fn parse_bool_param(resp: &Response) -> (r: Result<bool, Error>)
    ensures
        r == bool_param_result(resp@),
{
    match parse_read_one(resp) {
        Ok(w) => decode_bool(w),
        Err(e) => Err(e),
    }
}

fn parse_direction_param(resp: &Response) -> (r: Result<Direction, Error>)
    ensures
        r == direction_param_result(resp@),
{
    match parse_read_one(resp) {
        Ok(w) => decode_direction(w),
        Err(e) => Err(e),
    }
}

fn parse_alarm_param(resp: &Response) -> (r: Result<Option<AlarmCode>, Error>)
    ensures
        r == alarm_param_result(resp@),
{
    match parse_read_one(resp) {
        Ok(w) => decode_alarm(w),
        Err(e) => Err(e),
    }
}

fn parse_dword_param(resp: &Response) -> (r: Result<u32, Error>)
    ensures
        r == dword_param_result(resp@),
{
    match parse_read_two(resp) {
        Ok((lo, hi)) => Ok(join_words(lo, hi)),
        Err(e) => Err(e),
    }
}

// ---------------------------------------------------------------------
// modbus-enabled (0x00): 0/1 boolean, read/write.
// ---------------------------------------------------------------------

pub fn modbus_enabled_request() -> (r: Request)
    ensures
        r == Request::ReadHoldingRegisters(REG_MODBUS_ENABLED, 1),
{
    read_one_request(REG_MODBUS_ENABLED)
}

pub fn parse_modbus_enabled(resp: &Response) -> (r: Result<bool, Error>)
    ensures
        r == bool_param_result(resp@),
{
    parse_bool_param(resp)
}

pub fn set_modbus_enabled_request(value: bool) -> (r: Request)
    ensures
        r == Request::WriteSingleRegister(REG_MODBUS_ENABLED, encode_bool_spec(value)),
{
    write_one_request(REG_MODBUS_ENABLED, encode_bool(value))
}

pub fn parse_set_modbus_enabled(value: bool, resp: &Response) -> (r: Result<(), Error>)
    ensures
        r == write_one_result(REG_MODBUS_ENABLED, encode_bool_spec(value), resp@),
{
    parse_write_one(REG_MODBUS_ENABLED, encode_bool(value), resp)
}

// ---------------------------------------------------------------------
// drive-enabled (0x01): 0/1 boolean, read/write.
// ---------------------------------------------------------------------

pub fn drive_enabled_request() -> (r: Request)
    ensures
        r == Request::ReadHoldingRegisters(REG_DRIVE_ENABLED, 1),
{
    read_one_request(REG_DRIVE_ENABLED)
}

pub fn parse_drive_enabled(resp: &Response) -> (r: Result<bool, Error>)
    ensures
        r == bool_param_result(resp@),
{
    parse_bool_param(resp)
}

pub fn set_drive_enabled_request(value: bool) -> (r: Request)
    ensures
        r == Request::WriteSingleRegister(REG_DRIVE_ENABLED, encode_bool_spec(value)),
{
    write_one_request(REG_DRIVE_ENABLED, encode_bool(value))
}

pub fn parse_set_drive_enabled(value: bool, resp: &Response) -> (r: Result<(), Error>)
    ensures
        r == write_one_result(REG_DRIVE_ENABLED, encode_bool_spec(value), resp@),
{
    parse_write_one(REG_DRIVE_ENABLED, encode_bool(value), resp)
}

// ---------------------------------------------------------------------
// target-speed in RPM (0x02): raw integer 0-3000, read/write.  In speed
// mode the target speed; in position mode the maximum speed.
// ---------------------------------------------------------------------

pub fn target_rpm_request() -> (r: Request)
    ensures
        r == Request::ReadHoldingRegisters(REG_TARGET_RPM, 1),
{
    read_one_request(REG_TARGET_RPM)
}

pub fn parse_target_rpm(resp: &Response) -> (r: Result<u16, Error>)
    ensures
        r == read_one_result(resp@),
{
    parse_read_one(resp)
}

pub fn set_target_rpm_request(value: u16) -> (r: Request)
    ensures
        r == Request::WriteSingleRegister(REG_TARGET_RPM, value),
{
    write_one_request(REG_TARGET_RPM, value)
}

pub fn parse_set_target_rpm(value: u16, resp: &Response) -> (r: Result<(), Error>)
    ensures
        r == write_one_result(REG_TARGET_RPM, value, resp@),
{
    parse_write_one(REG_TARGET_RPM, value, resp)
}

// ---------------------------------------------------------------------
// acceleration (0x03): raw integer, read/write.
// ---------------------------------------------------------------------

pub fn acceleration_request() -> (r: Request)
    ensures
        r == Request::ReadHoldingRegisters(REG_ACCELERATION, 1),
{
    read_one_request(REG_ACCELERATION)
}

pub fn parse_acceleration(resp: &Response) -> (r: Result<u16, Error>)
    ensures
        r == read_one_result(resp@),
{
    parse_read_one(resp)
}

pub fn set_acceleration_request(value: u16) -> (r: Request)
    ensures
        r == Request::WriteSingleRegister(REG_ACCELERATION, value),
{
    write_one_request(REG_ACCELERATION, value)
}

pub fn parse_set_acceleration(value: u16, resp: &Response) -> (r: Result<(), Error>)
    ensures
        r == write_one_result(REG_ACCELERATION, value, resp@),
{
    parse_write_one(REG_ACCELERATION, value, resp)
}

// ---------------------------------------------------------------------
// weak-magnetic-angle (0x04): raw integer, read/write.
// ---------------------------------------------------------------------

pub fn weak_magnetic_angle_request() -> (r: Request)
    ensures
        r == Request::ReadHoldingRegisters(REG_WEAK_MAGNETIC_ANGLE, 1),
{
    read_one_request(REG_WEAK_MAGNETIC_ANGLE)
}

pub fn parse_weak_magnetic_angle(resp: &Response) -> (r: Result<u16, Error>)
    ensures
        r == read_one_result(resp@),
{
    parse_read_one(resp)
}

pub fn set_weak_magnetic_angle_request(value: u16) -> (r: Request)
    ensures
        r == Request::WriteSingleRegister(REG_WEAK_MAGNETIC_ANGLE, value),
{
    write_one_request(REG_WEAK_MAGNETIC_ANGLE, value)
}

pub fn parse_set_weak_magnetic_angle(value: u16, resp: &Response) -> (r: Result<(), Error>)
    ensures
        r == write_one_result(REG_WEAK_MAGNETIC_ANGLE, value, resp@),
{
    parse_write_one(REG_WEAK_MAGNETIC_ANGLE, value, resp)
}

// ---------------------------------------------------------------------
// speed-Kp (0x05): raw integer, read/write.
// ---------------------------------------------------------------------

pub fn speed_kp_request() -> (r: Request)
    ensures
        r == Request::ReadHoldingRegisters(REG_SPEED_KP, 1),
{
    read_one_request(REG_SPEED_KP)
}

pub fn parse_speed_kp(resp: &Response) -> (r: Result<u16, Error>)
    ensures
        r == read_one_result(resp@),
{
    parse_read_one(resp)
}

pub fn set_speed_kp_request(value: u16) -> (r: Request)
    ensures
        r == Request::WriteSingleRegister(REG_SPEED_KP, value),
{
    write_one_request(REG_SPEED_KP, value)
}

pub fn parse_set_speed_kp(value: u16, resp: &Response) -> (r: Result<(), Error>)
    ensures
        r == write_one_result(REG_SPEED_KP, value, resp@),
{
    parse_write_one(REG_SPEED_KP, value, resp)
}

// ---------------------------------------------------------------------
// speed-I-time (0x06): integer milliseconds, read/write.
// ---------------------------------------------------------------------

pub fn speed_i_time_request() -> (r: Request)
    ensures
        r == Request::ReadHoldingRegisters(REG_SPEED_I_TIME, 1),
{
    read_one_request(REG_SPEED_I_TIME)
}

/// The raw word is the integration time in milliseconds.
pub fn parse_speed_i_time(resp: &Response) -> (r: Result<u16, Error>)
    ensures
        r == read_one_result(resp@),
{
    parse_read_one(resp)
}

pub fn set_speed_i_time_request(millis: u16) -> (r: Request)
    ensures
        r == Request::WriteSingleRegister(REG_SPEED_I_TIME, millis),
{
    write_one_request(REG_SPEED_I_TIME, millis)
}

pub fn parse_set_speed_i_time(millis: u16, resp: &Response) -> (r: Result<(), Error>)
    ensures
        r == write_one_result(REG_SPEED_I_TIME, millis, resp@),
{
    parse_write_one(REG_SPEED_I_TIME, millis, resp)
}

// ---------------------------------------------------------------------
// position-Kp (0x07): raw integer, read/write.
// ---------------------------------------------------------------------

pub fn position_kp_request() -> (r: Request)
    ensures
        r == Request::ReadHoldingRegisters(REG_POSITION_KP, 1),
{
    read_one_request(REG_POSITION_KP)
}

pub fn parse_position_kp(resp: &Response) -> (r: Result<u16, Error>)
    ensures
        r == read_one_result(resp@),
{
    parse_read_one(resp)
}

pub fn set_position_kp_request(value: u16) -> (r: Request)
    ensures
        r == Request::WriteSingleRegister(REG_POSITION_KP, value),
{
    write_one_request(REG_POSITION_KP, value)
}

pub fn parse_set_position_kp(value: u16, resp: &Response) -> (r: Result<(), Error>)
    ensures
        r == write_one_result(REG_POSITION_KP, value, resp@),
{
    parse_write_one(REG_POSITION_KP, value, resp)
}

// ---------------------------------------------------------------------
// speed-feed (0x08): the device stores the raw word; the physical value
// is raw / 327.0, a floating-point scaling the shell applies.
// ---------------------------------------------------------------------

pub fn speed_feed_raw_request() -> (r: Request)
    ensures
        r == Request::ReadHoldingRegisters(REG_SPEED_FEED, 1),
{
    read_one_request(REG_SPEED_FEED)
}

pub fn parse_speed_feed_raw(resp: &Response) -> (r: Result<u16, Error>)
    ensures
        r == read_one_result(resp@),
{
    parse_read_one(resp)
}

pub fn set_speed_feed_raw_request(raw: u16) -> (r: Request)
    ensures
        r == Request::WriteSingleRegister(REG_SPEED_FEED, raw),
{
    write_one_request(REG_SPEED_FEED, raw)
}

pub fn parse_set_speed_feed_raw(raw: u16, resp: &Response) -> (r: Result<(), Error>)
    ensures
        r == write_one_result(REG_SPEED_FEED, raw, resp@),
{
    parse_write_one(REG_SPEED_FEED, raw, resp)
}

// ---------------------------------------------------------------------
// direction-polarity (0x09): 0 = counter-clockwise, 1 = clockwise,
// read/write.
// ---------------------------------------------------------------------

pub fn dir_polarity_request() -> (r: Request)
    ensures
        r == Request::ReadHoldingRegisters(REG_DIR_POLARITY, 1),
{
    read_one_request(REG_DIR_POLARITY)
}

pub fn parse_dir_polarity(resp: &Response) -> (r: Result<Direction, Error>)
    ensures
        r == direction_param_result(resp@),
{
    parse_direction_param(resp)
}

pub fn set_dir_polarity_request(value: &Direction) -> (r: Request)
    ensures
        r == Request::WriteSingleRegister(REG_DIR_POLARITY, encode_direction_spec(*value)),
{
    write_one_request(REG_DIR_POLARITY, encode_direction(value))
}

pub fn parse_set_dir_polarity(value: &Direction, resp: &Response) -> (r: Result<(), Error>)
    ensures
        r == write_one_result(REG_DIR_POLARITY, encode_direction_spec(*value), resp@),
{
    parse_write_one(REG_DIR_POLARITY, encode_direction(value), resp)
}

// ---------------------------------------------------------------------
// electronic gear numerator (0x0A, 0 enables special functions) and
// denominator (0x0B, 1-65535): raw integers, read/write.
// ---------------------------------------------------------------------

pub fn electronic_gear_numerator_request() -> (r: Request)
    ensures
        r == Request::ReadHoldingRegisters(REG_GEAR_NUMERATOR, 1),
{
    read_one_request(REG_GEAR_NUMERATOR)
}

pub fn parse_electronic_gear_numerator(resp: &Response) -> (r: Result<u16, Error>)
    ensures
        r == read_one_result(resp@),
{
    parse_read_one(resp)
}

pub fn set_electronic_gear_numerator_request(value: u16) -> (r: Request)
    ensures
        r == Request::WriteSingleRegister(REG_GEAR_NUMERATOR, value),
{
    write_one_request(REG_GEAR_NUMERATOR, value)
}

pub fn parse_set_electronic_gear_numerator(value: u16, resp: &Response) -> (r: Result<(), Error>)
    ensures
        r == write_one_result(REG_GEAR_NUMERATOR, value, resp@),
{
    parse_write_one(REG_GEAR_NUMERATOR, value, resp)
}

pub fn electronic_gear_denominator_request() -> (r: Request)
    ensures
        r == Request::ReadHoldingRegisters(REG_GEAR_DENOMINATOR, 1),
{
    read_one_request(REG_GEAR_DENOMINATOR)
}

pub fn parse_electronic_gear_denominator(resp: &Response) -> (r: Result<u16, Error>)
    ensures
        r == read_one_result(resp@),
{
    parse_read_one(resp)
}

pub fn set_electronic_gear_denominator_request(value: u16) -> (r: Request)
    ensures
        r == Request::WriteSingleRegister(REG_GEAR_DENOMINATOR, value),
{
    write_one_request(REG_GEAR_DENOMINATOR, value)
}

pub fn parse_set_electronic_gear_denominator(value: u16, resp: &Response) -> (r: Result<
    (),
    Error,
>)
    ensures
        r == write_one_result(REG_GEAR_DENOMINATOR, value, resp@),
{
    parse_write_one(REG_GEAR_DENOMINATOR, value, resp)
}

// ---------------------------------------------------------------------
// target-position (0x0C-0x0D): 32-bit value split low word first,
// read/write.
// ---------------------------------------------------------------------

pub fn target_position_request() -> (r: Request)
    ensures
        r == Request::ReadHoldingRegisters(REG_TARGET_POSITION, 2),
{
    read_two_request(REG_TARGET_POSITION)
}

pub fn parse_target_position(resp: &Response) -> (r: Result<u32, Error>)
    ensures
        r == dword_param_result(resp@),
{
    parse_dword_param(resp)
}

pub fn set_target_position_request(value: u32) -> (r: Request)
    ensures
        r == Request::WriteTwoRegisters(
            REG_TARGET_POSITION,
            low_word_spec(value),
            high_word_spec(value),
        ),
{
    Request::WriteTwoRegisters(REG_TARGET_POSITION, low_word(value), high_word(value))
}

pub fn parse_set_target_position(resp: &Response) -> (r: Result<(), Error>)
    ensures
        r == write_two_result(REG_TARGET_POSITION, resp@),
{
    parse_write_two(REG_TARGET_POSITION, resp)
}

// ---------------------------------------------------------------------
// alarm-code (0x0E): read-only; 0 means no alarm, the four known codes
// map to the enumeration, anything else is an error.
// ---------------------------------------------------------------------

pub fn alarm_code_request() -> (r: Request)
    ensures
        r == Request::ReadHoldingRegisters(REG_ALARM_CODE, 1),
{
    read_one_request(REG_ALARM_CODE)
}

pub fn parse_alarm_code(resp: &Response) -> (r: Result<Option<AlarmCode>, Error>)
    ensures
        r == alarm_param_result(resp@),
{
    parse_alarm_param(resp)
}

// ---------------------------------------------------------------------
// current (0x0F, physical value raw / 2000.0), speed (0x10, raw / 10.0)
// and voltage (0x11, raw / 327.0): read-only raw words; the
// floating-point scaling is the shell's.
// ---------------------------------------------------------------------

pub fn current_raw_request() -> (r: Request)
    ensures
        r == Request::ReadHoldingRegisters(REG_CURRENT, 1),
{
    read_one_request(REG_CURRENT)
}

pub fn parse_current_raw(resp: &Response) -> (r: Result<u16, Error>)
    ensures
        r == read_one_result(resp@),
{
    parse_read_one(resp)
}

pub fn speed_raw_request() -> (r: Request)
    ensures
        r == Request::ReadHoldingRegisters(REG_SPEED, 1),
{
    read_one_request(REG_SPEED)
}

pub fn parse_speed_raw(resp: &Response) -> (r: Result<u16, Error>)
    ensures
        r == read_one_result(resp@),
{
    parse_read_one(resp)
}

pub fn voltage_raw_request() -> (r: Request)
    ensures
        r == Request::ReadHoldingRegisters(REG_VOLTAGE, 1),
{
    read_one_request(REG_VOLTAGE)
}

pub fn parse_voltage_raw(resp: &Response) -> (r: Result<u16, Error>)
    ensures
        r == read_one_result(resp@),
{
    parse_read_one(resp)
}

// ---------------------------------------------------------------------
// temperature (0x12) and pwm (0x13): read-only raw integers.
// ---------------------------------------------------------------------

pub fn temperature_request() -> (r: Request)
    ensures
        r == Request::ReadHoldingRegisters(REG_TEMPERATURE, 1),
{
    read_one_request(REG_TEMPERATURE)
}

pub fn parse_temperature(resp: &Response) -> (r: Result<u16, Error>)
    ensures
        r == read_one_result(resp@),
{
    parse_read_one(resp)
}

pub fn pwm_request() -> (r: Request)
    ensures
        r == Request::ReadHoldingRegisters(REG_PWM, 1),
{
    read_one_request(REG_PWM)
}

pub fn parse_pwm(resp: &Response) -> (r: Result<u16, Error>)
    ensures
        r == read_one_result(resp@),
{
    parse_read_one(resp)
}

// ---------------------------------------------------------------------
// parameter-save-flag (0x14): 0/1 boolean, read/write.
// ---------------------------------------------------------------------

pub fn parameter_save_flag_request() -> (r: Request)
    ensures
        r == Request::ReadHoldingRegisters(REG_PARAMETER_SAVE_FLAG, 1),
{
    read_one_request(REG_PARAMETER_SAVE_FLAG)
}

pub fn parse_parameter_save_flag(resp: &Response) -> (r: Result<bool, Error>)
    ensures
        r == bool_param_result(resp@),
{
    parse_bool_param(resp)
}

pub fn set_parameter_save_flag_request(value: bool) -> (r: Request)
    ensures
        r == Request::WriteSingleRegister(REG_PARAMETER_SAVE_FLAG, encode_bool_spec(value)),
{
    write_one_request(REG_PARAMETER_SAVE_FLAG, encode_bool(value))
}

pub fn parse_set_parameter_save_flag(value: bool, resp: &Response) -> (r: Result<(), Error>)
    ensures
        r == write_one_result(REG_PARAMETER_SAVE_FLAG, encode_bool_spec(value), resp@),
{
    parse_write_one(REG_PARAMETER_SAVE_FLAG, encode_bool(value), resp)
}

// ---------------------------------------------------------------------
// device-address (0x15): read-only raw integer.
// ---------------------------------------------------------------------

pub fn device_address_request() -> (r: Request)
    ensures
        r == Request::ReadHoldingRegisters(REG_DEVICE_ADDRESS, 1),
{
    read_one_request(REG_DEVICE_ADDRESS)
}

pub fn parse_device_address(resp: &Response) -> (r: Result<u16, Error>)
    ensures
        r == read_one_result(resp@),
{
    parse_read_one(resp)
}

// ---------------------------------------------------------------------
// absolute-position (0x16-0x17): 32-bit value split low word first,
// read/write.
// ---------------------------------------------------------------------

pub fn absolute_position_request() -> (r: Request)
    ensures
        r == Request::ReadHoldingRegisters(REG_ABSOLUTE_POSITION, 2),
{
    read_two_request(REG_ABSOLUTE_POSITION)
}

pub fn parse_absolute_position(resp: &Response) -> (r: Result<u32, Error>)
    ensures
        r == dword_param_result(resp@),
{
    parse_dword_param(resp)
}

pub fn set_absolute_position_request(value: u32) -> (r: Request)
    ensures
        r == Request::WriteTwoRegisters(
            REG_ABSOLUTE_POSITION,
            low_word_spec(value),
            high_word_spec(value),
        ),
{
    Request::WriteTwoRegisters(REG_ABSOLUTE_POSITION, low_word(value), high_word(value))
}

pub fn parse_set_absolute_position(resp: &Response) -> (r: Result<(), Error>)
    ensures
        r == write_two_result(REG_ABSOLUTE_POSITION, resp@),
{
    parse_write_two(REG_ABSOLUTE_POSITION, resp)
}

// ---------------------------------------------------------------------
// still-max-current (0x18): raw integer, read/write.
// ---------------------------------------------------------------------

pub fn still_maximum_allowed_current_request() -> (r: Request)
    ensures
        r == Request::ReadHoldingRegisters(REG_STILL_MAX_CURRENT, 1),
{
    read_one_request(REG_STILL_MAX_CURRENT)
}

pub fn parse_still_maximum_allowed_current(resp: &Response) -> (r: Result<u16, Error>)
    ensures
        r == read_one_result(resp@),
{
    parse_read_one(resp)
}

pub fn set_still_maximum_allowed_current_request(value: u16) -> (r: Request)
    ensures
        r == Request::WriteSingleRegister(REG_STILL_MAX_CURRENT, value),
{
    write_one_request(REG_STILL_MAX_CURRENT, value)
}

pub fn parse_set_still_maximum_allowed_current(value: u16, resp: &Response) -> (r: Result<
    (),
    Error,
>)
    ensures
        r == write_one_result(REG_STILL_MAX_CURRENT, value, resp@),
{
    parse_write_one(REG_STILL_MAX_CURRENT, value, resp)
}

// ---------------------------------------------------------------------
// specific-function (0x19): raw integer, read/write.
// ---------------------------------------------------------------------

pub fn specific_function_request() -> (r: Request)
    ensures
        r == Request::ReadHoldingRegisters(REG_SPECIFIC_FUNCTION, 1),
{
    read_one_request(REG_SPECIFIC_FUNCTION)
}

pub fn parse_specific_function(resp: &Response) -> (r: Result<u16, Error>)
    ensures
        r == read_one_result(resp@),
{
    parse_read_one(resp)
}

pub fn set_specific_function_request(value: u16) -> (r: Request)
    ensures
        r == Request::WriteSingleRegister(REG_SPECIFIC_FUNCTION, value),
{
    write_one_request(REG_SPECIFIC_FUNCTION, value)
}

pub fn parse_set_specific_function(value: u16, resp: &Response) -> (r: Result<(), Error>)
    ensures
        r == write_one_result(REG_SPECIFIC_FUNCTION, value, resp@),
{
    parse_write_one(REG_SPECIFIC_FUNCTION, value, resp)
}

// ---------------------------------------------------------------------
// The two custom position writes: the 32-bit value travels as four raw
// big-endian bytes, with no register split.  This byte order is distinct
// from the low-word-first convention of the two-register path above, and
// the two paths are deliberately kept as separate operations.
// ---------------------------------------------------------------------

pub fn set_target_position_custom_request(value: u32) -> (r: Request)
    ensures
        r == Request::Custom(FC_SET_TARGET_POSITION, value),
{
    Request::Custom(FC_SET_TARGET_POSITION, value)
}

pub fn parse_set_target_position_custom(value: u32, resp: &Response) -> (r: Result<(), Error>)
    ensures
        r == custom_echo_result(FC_SET_TARGET_POSITION, value, resp@),
{
    parse_custom_echo(FC_SET_TARGET_POSITION, value, resp)
}

pub fn set_absolute_position_custom_request(value: u32) -> (r: Request)
    ensures
        r == Request::Custom(FC_SET_ABSOLUTE_POSITION, value),
{
    Request::Custom(FC_SET_ABSOLUTE_POSITION, value)
}

pub fn parse_set_absolute_position_custom(value: u32, resp: &Response) -> (r: Result<(), Error>)
    ensures
        r == custom_echo_result(FC_SET_ABSOLUTE_POSITION, value, resp@),
{
    parse_custom_echo(FC_SET_ABSOLUTE_POSITION, value, resp)
}

// ---------------------------------------------------------------------
// Baud-rate change: a 4-step write sequence, not a plain parameter
// write.  After the last step commits, the device changes its own UART
// baud and the caller must reconfigure the local transport.
// ---------------------------------------------------------------------

/// The numeric code written to the device to select a baud rate.
pub open spec fn baud_code_spec(baud: RtuBaud) -> u16 {
    match baud {
        RtuBaud::Baud115200 => 803,
        RtuBaud::Baud38400 => 802,
        RtuBaud::Baud19200 => 801,
        RtuBaud::Baud9600 => 800,
    }
}

pub fn baud_register_code(baud: &RtuBaud) -> (r: u16)
    ensures
        r == baud_code_spec(*baud),
{
    match baud {
        RtuBaud::Baud115200 => 803,
        RtuBaud::Baud38400 => 802,
        RtuBaud::Baud19200 => 801,
        RtuBaud::Baud9600 => 800,
    }
}

/// The four single-register writes of the baud-change sequence, in
/// order: enable configuration mode, select the baud code, the fixed
/// word 129, then 506 to commit.  Each one is a full transaction whose
/// echo is checked with `parse_write_single_echo`.
pub fn set_baud_rate_requests(baud: &RtuBaud) -> (r: Vec<Request>)
    ensures
        r@.len() == 4,
        r@[0] == Request::WriteSingleRegister(0x00, 1),
        r@[1] == Request::WriteSingleRegister(0x02, baud_code_spec(*baud)),
        r@[2] == Request::WriteSingleRegister(0x03, 129),
        r@[3] == Request::WriteSingleRegister(0x00, 506),
{
    let mut r: Vec<Request> = Vec::new();
    r.push(Request::WriteSingleRegister(0x00, 1));
    r.push(Request::WriteSingleRegister(0x02, baud_register_code(baud)));
    r.push(Request::WriteSingleRegister(0x03, 129));
    r.push(Request::WriteSingleRegister(0x00, 506));
    r
}

/// Echo verification for one step of a multi-write sequence whose
/// requests were built as single-register writes.
pub fn parse_write_single_echo(req: &Request, resp: &Response) -> (r: Result<(), Error>)
    requires
        *req matches Request::WriteSingleRegister(..),
    ensures
        *req matches Request::WriteSingleRegister(a, d) ==> r == write_one_result(a, d, resp@),
{
    match req {
        Request::WriteSingleRegister(a, d) => parse_write_one(*a, *d, resp),
        _ => Err(Error::UnexpectedResponseType),
    }
}

} // verus!
