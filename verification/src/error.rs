//! The ways in which a conversion or a submission can be turned down.

use vstd::prelude::*;

verus! {

/// A conversion whose exact result has no place in a signed 32-bit value.
/// Each variant carries that exact result.
#[derive(Clone, Copy, Debug, PartialEq, Eq, Structural)]
pub enum ConversionError {
    /// The exact result lies below `i32::MIN`.
    TooLow(i64),
    /// The exact result lies above `i32::MAX`.
    TooHigh(i64),
}

/// Why a reading was not taken into a `TemperatureService`.
#[derive(Clone, Copy, Debug, PartialEq, Eq, Structural)]
pub enum AggregationError {
    /// The reading could not be expressed in milli-Celsius.
    Conversion(ConversionError),
    /// The reading is a valid temperature, but not one the weather produces.
    NotTerrestrial,
}

} // verus!
