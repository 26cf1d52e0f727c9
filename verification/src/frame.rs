//! The request and response alphabet of one protocol exchange, and the
//! trusted boundary to the wire codec.
//!
//! Encoding a request into CRC-framed wire bytes and decoding received
//! bytes back into a structured response are the job of the external PDU
//! codec (the `modbus_core` crate); this module wraps those two calls and
//! gives their results names that the engine's contracts build on.

use vstd::prelude::*;

use crate::error::Error;
use modbus_core::rtu::client::{decode_response, encode_request};
use modbus_core::rtu::{Header, RequestAdu};
use modbus_core::FunctionCode::Custom as MbCustomCode;
use modbus_core::Request::{
    Custom as MbCustom, ReadHoldingRegisters as MbReadHolding,
    WriteMultipleRegisters as MbWriteMultiple, WriteSingleRegister as MbWriteSingle,
};
use modbus_core::{Data as MbData, RequestPdu, Response as MbResponse};

verus! {

/// One request of this driver.  The driver only ever reads holding
/// registers, writes one register, writes exactly two consecutive
/// registers, or sends a custom function code whose payload is the four
/// big-endian bytes of a 32-bit value.
#[derive(Clone, Copy, Debug, PartialEq, Eq, Structural)]
pub enum Request {
    /// Read `count` holding registers starting at `address`: `(address, count)`.
    ReadHoldingRegisters(u16, u16),
    /// Write one register: `(address, value)`.
    WriteSingleRegister(u16, u16),
    /// Write two consecutive registers starting at `address`:
    /// `(address, word0, word1)` with `word0` stored at `address`.
    WriteTwoRegisters(u16, u16, u16),
    /// Custom function code with the four big-endian bytes of the value
    /// as raw payload: `(function_code, value)`.
    Custom(u8, u32),
}

/// One decoded response.  Variants the driver never asked for still
/// arrive decoded (a misrouted or stale reply); they are kept only as
/// `Other` and rejected by the per-parameter checks.
#[derive(Clone, Debug)]
pub enum Response {
    /// The words returned by a holding-register read.
    ReadHoldingRegisters(Vec<u16>),
    /// Echo of a single-register write: `(address, value)`.
    WriteSingleRegister(u16, u16),
    /// Echo of a multi-register write: `(address, word_count)`.
    WriteMultipleRegisters(u16, u16),
    /// Echo of a custom-function request: `(function_code, payload)`.
    Custom(u8, Vec<u8>),
    /// Any other well-formed response operation.
    Other,
}

/// The mathematical shape of a `Response`.
pub enum ResponseView {
    ReadHoldingRegisters(Seq<u16>),
    WriteSingleRegister(u16, u16),
    WriteMultipleRegisters(u16, u16),
    Custom(u8, Seq<u8>),
    Other,
}

impl View for Response {
    type V = ResponseView;

    open spec fn view(&self) -> ResponseView {
        match self {
            Response::ReadHoldingRegisters(words) => ResponseView::ReadHoldingRegisters(words@),
            Response::WriteSingleRegister(a, d) => ResponseView::WriteSingleRegister(*a, *d),
            Response::WriteMultipleRegisters(a, c) => ResponseView::WriteMultipleRegisters(*a, *c),
            Response::Custom(fc, payload) => ResponseView::Custom(*fc, payload@),
            Response::Other => ResponseView::Other,
        }
    }
}

/// What the wire codec made of a received byte sequence.
#[derive(Debug)]
pub enum DecodeOutcome {
    /// A well-formed response frame.
    Valid(Response),
    /// A well-formed frame carrying a device-reported protocol exception.
    Exception,
    /// No complete frame with a valid checksum could be found in the bytes.
    Incomplete,
    /// The codec reported the bytes as undecodable.
    Malformed,
}

/// The mathematical shape of a `DecodeOutcome`.
pub enum DecodeOutcomeView {
    Valid(ResponseView),
    Exception,
    Incomplete,
    Malformed,
}

impl View for DecodeOutcome {
    type V = DecodeOutcomeView;

    open spec fn view(&self) -> DecodeOutcomeView {
        match self {
            DecodeOutcome::Valid(resp) => DecodeOutcomeView::Valid(resp@),
            DecodeOutcome::Exception => DecodeOutcomeView::Exception,
            DecodeOutcome::Incomplete => DecodeOutcomeView::Incomplete,
            DecodeOutcome::Malformed => DecodeOutcomeView::Malformed,
        }
    }
}

/// The wire frame the codec produces for a request sent to `address`:
/// function code, big-endian fields and trailing CRC.  It depends on the
/// two arguments alone.
pub uninterp spec fn frame_bytes(address: u8, req: Request) -> Seq<u8>;

/// What the codec makes of a received byte sequence.  It depends on the
/// bytes alone.
pub uninterp spec fn decoded_frame(data: Seq<u8>) -> DecodeOutcomeView;

/// Relies on `modbus_core::rtu::client::encode_request`: it writes the
/// slave address, the PDU and the CRC into the buffer and is a pure
/// function of the request.  It fails only when the frame would not fit
/// the buffer, and every request shape this driver builds encodes into at
/// most 13 of the 64 buffer bytes, so the call always succeeds.  The
/// inner `Data::from_words` cannot fail on two words and a four-byte
/// buffer.
#[verifier::external_body]
pub(crate) fn encode_request_frame(address: u8, req: &Request) -> (r: Result<Vec<u8>, Error>)
    ensures
        r is Ok,
        r matches Ok(bytes) ==> bytes@ == frame_bytes(address, *req),
{
    let mut buf = [0u8; 64];
    let mut aux = [0u8; 4];
    let pdu = match *req {
        Request::ReadHoldingRegisters(a, n) => MbReadHolding(a, n),
        Request::WriteSingleRegister(a, d) => MbWriteSingle(a, d),
        Request::WriteTwoRegisters(a, w0, w1) => MbWriteMultiple(a, MbData::from_words(&[w0, w1], &mut aux).unwrap()),
        Request::Custom(fc, v) => { aux = v.to_be_bytes(); MbCustom(MbCustomCode(fc), &aux) },
    };
    match encode_request(RequestAdu { hdr: Header { slave: address }, pdu: RequestPdu(pdu) }, &mut buf) {
        Ok(n) => Ok(buf[..n].to_vec()),
        Err(_) => Err(Error::Transport),
    }
}

/// Relies on `modbus_core::rtu::client::decode_response`: a pure function
/// of the bytes that yields a decoded frame, an exception frame, or
/// nothing when no complete frame with a valid checksum is present (a
/// checksum mismatch surfaces as nothing found once every starting offset
/// has been tried).  The decoder gives up with an abort once it has
/// dropped 255 undecodable leading bytes, so only slices within the
/// protocol's 256-byte maximum frame length are admitted; there it
/// always returns.
#[verifier::external_body]
pub(crate) fn decode_response_frame(data: &[u8]) -> (r: DecodeOutcome)
    requires
        data@.len() <= 256,
    ensures
        r@ == decoded_frame(data@),
{
    match decode_response(data) {
        Err(_) => DecodeOutcome::Malformed,
        Ok(None) => DecodeOutcome::Incomplete,
        Ok(Some(adu)) => match adu.pdu.0 {
            Err(_) => DecodeOutcome::Exception,
            Ok(MbResponse::ReadHoldingRegisters(d)) => DecodeOutcome::Valid(Response::ReadHoldingRegisters(d.into_iter().collect())),
            Ok(MbResponse::WriteSingleRegister(a, w)) => DecodeOutcome::Valid(Response::WriteSingleRegister(a, w)),
            Ok(MbResponse::WriteMultipleRegisters(a, c)) => DecodeOutcome::Valid(Response::WriteMultipleRegisters(a, c)),
            Ok(MbResponse::Custom(fc, b)) => DecodeOutcome::Valid(Response::Custom(fc.value(), b.to_vec())),
            Ok(_) => DecodeOutcome::Valid(Response::Other),
        },
    }
}

} // verus!
