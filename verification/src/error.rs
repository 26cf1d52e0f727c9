//! The closed set of failure kinds surfaced to callers.

use vstd::prelude::*;

verus! {

/// Everything that can go wrong during one register transaction.
/// No failure is retried internally; the first one encountered is
/// returned to the caller, who decides on retry or backoff.
#[derive(Clone, Copy, Debug, PartialEq, Eq, Structural)]
pub enum Error {
    /// I/O failure writing or reading, or request encoding failure.
    Transport,
    /// No bytes were received at all within the response window.
    Timeout,
    /// Malformed frame (checksum failure, truncation) or a
    /// device-reported protocol exception.
    Modbus,
    /// The decoded response's operation does not match the request sent.
    UnexpectedResponseType,
    /// A register read returned the wrong word count: `(actual, expected)`.
    UnexpectedResponseLength(usize, usize),
    /// An echoed write (address, value or count) does not match what was sent.
    UnexpectedResponseData,
}

} // verus!
