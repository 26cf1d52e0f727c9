//! The transaction engine: pacing of requests, the receive state machine
//! that detects the end of a response frame purely from silence timing,
//! and the final decode step.
//!
//! The engine is sans-io.  The shell that owns the serial port drives one
//! exchange as follows: wait until `send_time`, write the bytes from
//! `prepare_frame`, then run the receive loop — `rx_start` gives the first
//! wait window, each read result is fed to `rx_step`, and the returned
//! directive says whether to keep reading, stop, or give up.  The bytes
//! gathered are then handed to `conclude`.

use vstd::prelude::*;

use crate::error::Error;
use crate::frame::{
    decode_response_frame, decoded_frame, encode_request_frame, frame_bytes, DecodeOutcome,
    DecodeOutcomeView, Request, Response,
};
use crate::types::{t15_micros, t35_micros, RtuBaud};

verus! {

/// Size of the scratch buffer one response is gathered into; it covers
/// the largest frame this driver can ever receive.
pub const FRAME_BUFFER_LEN: usize = 64;

/// The long-lived session handle: the timing constants of the configured
/// baud rate, the device address, and the pacing timestamp before which
/// no new request may be sent.
///
/// All times are microseconds on the caller's monotonic clock.
/// `earliest_next_frame_us` never decreases while the clock feeding
/// `rx_step` is monotone; it advances only after data is observed on the
/// line (see `lemma_earliest_next_frame_monotonic`).
#[derive(Clone, Copy, Debug, PartialEq, Eq, Structural)]
pub struct Motor {
    /// Inter-character silence threshold T1.5.
    pub t15_us: u64,
    /// Inter-frame silence T3.5.
    pub t35_us: u64,
    /// How long to wait for the first byte of a response.
    pub response_timeout_us: u64,
    /// The device (slave) address every request is sent to.
    pub address: u8,
    /// No request may be put on the wire before this instant.
    pub earliest_next_frame_us: u64,
}

/// What the shell observed during one wait of the receive loop.
#[derive(Clone, Copy, Debug, PartialEq, Eq, Structural)]
pub enum RxEvent {
    /// The read returned this many bytes before the window closed.
    Received(usize),
    /// The wait window closed with no bytes.
    TimedOut,
    /// The read failed.
    Failed,
}

/// What the shell must do next.
#[derive(Clone, Copy, Debug, PartialEq, Eq, Structural)]
pub enum RxDirective {
    /// Keep reading, waiting at most this many microseconds.
    Wait(u64),
    /// The frame has ended; hand the gathered bytes to `conclude`.
    Complete,
    /// Stop with a transport error.
    Abort,
}

impl Motor {
    /// Open a session at the given baud rate with device address 1.
    pub fn new(baud: &RtuBaud, response_timeout_us: u64, now_us: u64) -> (m: Motor)
        ensures
            m.t15_us == t15_micros(*baud),
            m.t35_us == t35_micros(*baud),
            m.response_timeout_us == response_timeout_us,
            m.address == 1,
            m.earliest_next_frame_us == now_us,
    {
        Motor {
            t15_us: baud.t15_us(),
            t35_us: baud.t35_us(),
            response_timeout_us,
            address: 1,
            earliest_next_frame_us: now_us,
        }
    }

    /// The earliest instant a new request may be put on the wire: now, or
    /// the pacing timestamp if that is still ahead.  Sending at this
    /// instant keeps the mandatory inter-frame silence (see
    /// `lemma_interframe_silence`).
    pub fn send_time(&self, now_us: u64) -> (t: u64)
        ensures
            t == if now_us >= self.earliest_next_frame_us {
                now_us
            } else {
                self.earliest_next_frame_us
            },
            t >= now_us,
            t >= self.earliest_next_frame_us,
    {
        if now_us >= self.earliest_next_frame_us {
            now_us
        } else {
            self.earliest_next_frame_us
        }
    }

    /// Encode a request, with this session's device address, into the
    /// wire bytes to send.  Every request shape this driver can build
    /// fits the codec's buffer, so encoding always succeeds.
    pub fn prepare_frame(&self, req: &Request) -> (r: Result<Vec<u8>, Error>)
        ensures
            r is Ok,
            r matches Ok(bytes) ==> bytes@ == frame_bytes(self.address, *req),
    {
        encode_request_frame(self.address, req)
    }

    /// The first wait of the receive loop: the full response timeout, so
    /// that a non-responding device bounds total latency.
    pub fn rx_start(&self) -> (d: RxDirective)
        ensures
            d == RxDirective::Wait(self.response_timeout_us),
    {
        RxDirective::Wait(self.response_timeout_us)
    }

    /// One step of the receive state machine.
    ///
    /// Bytes received are added to the total and push the pacing
    /// timestamp to now + T3.5; the next wait shrinks to T1.5, since a
    /// silence of T1.5 is conclusive evidence the frame has ended.  A
    /// timeout ends the loop — it is the designed termination condition,
    /// not an error.  A read failure aborts the exchange.
    pub fn rx_step(&mut self, total_read: &mut usize, event: RxEvent, now_us: u64) -> (d:
        RxDirective)
        requires
            event matches RxEvent::Received(n) ==> *old(total_read) + n <= FRAME_BUFFER_LEN,
            now_us + old(self).t35_us <= u64::MAX,
        ensures
            final(self).t15_us == old(self).t15_us,
            final(self).t35_us == old(self).t35_us,
            final(self).response_timeout_us == old(self).response_timeout_us,
            final(self).address == old(self).address,
            match event {
                RxEvent::Received(n) => {
                    &&& d == RxDirective::Wait(old(self).t15_us)
                    &&& *final(total_read) == *old(total_read) + n
                    &&& final(self).earliest_next_frame_us == now_us + old(self).t35_us
                },
                RxEvent::TimedOut => {
                    &&& d == RxDirective::Complete
                    &&& *final(self) == *old(self)
                    &&& *final(total_read) == *old(total_read)
                },
                RxEvent::Failed => {
                    &&& d == RxDirective::Abort
                    &&& *final(self) == *old(self)
                    &&& *final(total_read) == *old(total_read)
                },
            },
    {
        match event {
            RxEvent::Received(n) => {
                *total_read = *total_read + n;
                self.earliest_next_frame_us = now_us + self.t35_us;
                RxDirective::Wait(self.t15_us)
            },
            RxEvent::TimedOut => RxDirective::Complete,
            RxEvent::Failed => RxDirective::Abort,
        }
    }

    /// Judge the gathered bytes once the receive loop has stopped.  Zero
    /// bytes mean the device never answered: `Timeout`.  Otherwise the
    /// bytes go to the wire codec; anything but a well-formed,
    /// non-exception frame is a `Modbus` protocol error.  The bytes of
    /// one response never exceed the protocol's 256-byte maximum frame
    /// length — the session's own buffer holds 64.
    pub fn conclude(&self, data: &[u8]) -> (r: Result<Response, Error>)
        requires
            data@.len() <= 256,
        ensures
            data@.len() == 0 ==> (r matches Err(e) && e == Error::Timeout),
            data@.len() > 0 ==> match decoded_frame(data@) {
                DecodeOutcomeView::Valid(resp) => r matches Ok(x) && x@ == resp,
                _ => (r matches Err(e) && e == Error::Modbus),
            },
    {
        if data.len() == 0 {
            Err(Error::Timeout)
        } else {
            match decode_response_frame(data) {
                DecodeOutcome::Valid(resp) => Ok(resp),
                _ => Err(Error::Modbus),
            }
        }
    }
}

/// Law: the engine never lets a new request onto the wire less than T3.5
/// after the last observed data.  After data at `last_data_us` the pacing
/// timestamp is `last_data_us + t35` (see `rx_step`), `send_time` never
/// returns an instant below it, so the wall-clock gap between the end of
/// one frame and the start of the next send is at least T3.5.
pub proof fn lemma_interframe_silence(m: Motor, last_data_us: u64, send_us: u64)
    requires
        m.earliest_next_frame_us == last_data_us + m.t35_us,
        send_us >= m.earliest_next_frame_us,
    ensures
        send_us - last_data_us >= m.t35_us,
{
}

/// Law: the pacing timestamp never decreases across a session's lifetime.
/// It only ever moves from `prev_data_us + t35` to `now_us + t35` for a
/// later observation `now_us`, and a monotone clock never runs backwards.
pub proof fn lemma_earliest_next_frame_monotonic(prev_data_us: u64, now_us: u64, t35: u64)
    requires
        now_us >= prev_data_us,
    ensures
        now_us + t35 >= prev_data_us + t35,
{
}

} // verus!
