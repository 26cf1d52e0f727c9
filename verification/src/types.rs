//! Baud rates with their protocol timing constants, and the small
//! enumerations used by the parameter map.

use vstd::prelude::*;

verus! {

/// The supported serial baud rates.
#[derive(Clone, Copy, Debug, PartialEq, Eq, Structural)]
pub enum RtuBaud {
    Baud115200,
    Baud38400,
    Baud19200,
    Baud9600,
}

/// Inter-character silence threshold T1.5 in microseconds: a gap of at
/// least this length proves a multi-byte transmission has fully stopped.
/// At the two high baud rates the theoretical character time falls below
/// the practical minimum, so the protocol floor of 750 us is used.
pub open spec fn t15_micros(baud: RtuBaud) -> u64 {
    match baud {
        RtuBaud::Baud115200 => 750,
        RtuBaud::Baud38400 => 750,
        RtuBaud::Baud19200 => 1979,
        RtuBaud::Baud9600 => 3958,
    }
}

/// Inter-frame silence T3.5 in microseconds: the minimum gap required on
/// the line before a new frame may be sent.  1750 us at the two high baud
/// rates, otherwise equal to T1.5.
pub open spec fn t35_micros(baud: RtuBaud) -> u64 {
    match baud {
        RtuBaud::Baud115200 => 1750,
        RtuBaud::Baud38400 => 1750,
        RtuBaud::Baud19200 => 1979,
        RtuBaud::Baud9600 => 3958,
    }
}

impl RtuBaud {
    /// The inter-character silence threshold T1.5 for this baud rate,
    /// in microseconds.
    pub fn t15_us(&self) -> (r: u64)
        ensures
            r == t15_micros(*self),
    {
        match self {
            RtuBaud::Baud115200 => 750,
            RtuBaud::Baud38400 => 750,
            RtuBaud::Baud19200 => 1979,
            RtuBaud::Baud9600 => 3958,
        }
    }

    /// The inter-frame silence T3.5 for this baud rate, in microseconds.
    pub fn t35_us(&self) -> (r: u64)
        ensures
            r == t35_micros(*self),
    {
        match self {
            RtuBaud::Baud115200 => 1750,
            RtuBaud::Baud38400 => 1750,
            RtuBaud::Baud19200 => 1979,
            RtuBaud::Baud9600 => 3958,
        }
    }
}

/// The alarm conditions a device can report; absence of an alarm is
/// represented by `None` at the call sites.
#[derive(Clone, Copy, Debug, PartialEq, Eq, Structural)]
pub enum AlarmCode {
    PowerFailure,
    Overflow,
    Block,
    Overpressure,
}

/// Rotation direction for the polarity parameter.
#[derive(Clone, Copy, Debug, PartialEq, Eq, Structural)]
pub enum Direction {
    Clockwise,
    CounterClockwise,
}

} // verus!
