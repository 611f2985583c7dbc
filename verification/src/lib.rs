//! Temperatures in thousandths of a degree: exact integer conversion between
//! Celsius, Fahrenheit and Kelvin, a validated temperature value, and a
//! service that collects plausible readings and reports their mean.

use vstd::prelude::*;

pub mod error;
pub mod temperature;
pub mod temperature_service;
pub mod utils;

verus! {

/// The scale a value is expressed in. Every scale counts thousandths of a
/// degree, so no conversion ever needs a fraction.
#[derive(Clone, Copy, Debug, PartialEq, Eq, Structural)]
pub enum TemperatureUnit {
    MilliCelsius,
    MilliFahrenheit,
    MilliKelvin,
}

} // verus!
