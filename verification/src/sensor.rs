//! The sensor reader's data model: what one measurement attempt yields.
//!
//! The physical exchange — a blocking, precisely timed protocol over a
//! single data line, which must not run more often than once per minimum
//! inter-read interval — happens outside the library; it hands back either
//! a raw fixed-point reading or the protocol failure, as the plain values
//! below.  Every failure is recoverable: the control loop reports it and
//! the next scheduled cycle is the natural retry.

use vstd::prelude::*;

verus! {

/// One successful reading, in the sensor's fixed-point encoding:
/// temperature in tenths of a degree Celsius, relative humidity in tenths
/// of a percent.  Produced only by a successful measurement attempt,
/// immutable once produced, and not retained across cycles.
#[derive(Clone, Copy, Debug, PartialEq, Eq, Structural)]
pub struct Measurement {
    /// Temperature in tenths of a degree Celsius (250 is 25.0 degrees).
    pub temperature: i16,
    /// Relative humidity in tenths of a percent (600 is 60.0 percent).
    pub humidity: u16,
}

/// A failed protocol exchange with the sensor.  Always non-fatal: the
/// loop logs it and proceeds; there is no retry within a single cycle.
#[derive(Clone, Copy, Debug, PartialEq, Eq, Structural)]
pub enum SensorError {
    /// The sensor did not answer within the protocol's timing window.
    Timeout,
    /// The received frame's checksum did not match its payload.
    ChecksumMismatch,
    /// A line-level error on the data pin, with the driver's status code.
    Gpio(i32),
}

} // verus!
