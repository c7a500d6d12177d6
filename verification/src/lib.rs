//! Verified core of a sensor-and-display device loop.
//!
//! The device periodically samples an environmental sensor and renders the
//! result, together with a sweeping bar animation, onto a small monochrome
//! pixel display.  This crate holds the loop's logic: the unit conversion,
//! the bounded animation counter, the frame buffer and its drawing
//! operations, and the per-cycle control decisions with their
//! failure-isolation guarantees.  The hardware itself (the sensor's timed
//! single-wire protocol, the display's bus transfer, the cycle delay) sits
//! outside the library and hands it plain values.

pub mod anim;
pub mod canvas;
pub mod cycle;
pub mod sensor;
pub mod units;
