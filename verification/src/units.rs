//! Unit conversion from the sensor's fixed-point Celsius encoding to a
//! display-ready Fahrenheit value.
//!
//! The sensor delivers temperatures as integers in tenths of a degree
//! Celsius.  The conversion `(c / 10) * 9/5 + 32` is carried out exactly in
//! hundredths of a degree Fahrenheit: scaling by 100 makes every
//! tenths-of-a-degree input representable without rounding
//! (`250` tenths of a degree Celsius is exactly `7700` hundredths of a
//! degree Fahrenheit, that is 77.00 degrees).

use vstd::prelude::*;

verus! {

/// The Fahrenheit equivalent, in hundredths of a degree, of a temperature
/// given in tenths of a degree Celsius: `(t/10) * 9/5 + 32`, scaled by 100.
pub open spec fn fahrenheit_hundredths(tenths_c: int) -> int {
    18 * tenths_c + 3200
}

/// Unit converter: maps a raw sensor temperature (tenths of a degree
/// Celsius) to hundredths of a degree Fahrenheit.  Pure and total for every
/// representable input; the result is exact, with no rounding.
pub fn celsius_to_fahrenheit(tenths_c: i16) -> (r: i32)
    ensures
        r == fahrenheit_hundredths(tenths_c as int),
{
    (tenths_c as i32) * 18 + 3200
}

} // verus!
