//! Client-side driver core for a family of motor controllers that speak a
//! register-oriented request/response protocol over a half-duplex serial
//! link (Modbus RTU framing).
//!
//! The crate is written sans-io: it contains the transaction pacing rules,
//! the silence-based frame-boundary state machine, the register map and the
//! word-level value codecs, all as plain functions over plain values.  An
//! async shell owns the serial port and the clock, feeds events in and
//! carries the returned directives out.

pub mod codec;
pub mod engine;
pub mod error;
pub mod frame;
pub mod parameters;
pub mod types;

pub use engine::Motor;
pub use error::Error;
pub use types::{AlarmCode, Direction, RtuBaud};
