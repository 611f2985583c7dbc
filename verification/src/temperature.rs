//! A temperature held in one canonical scale.

use crate::error::ConversionError;
use crate::utils::temperature::converter::{conversion, convert_temperature};
use crate::TemperatureUnit;
use vstd::prelude::*;

verus! {

/// The coldest temperature, in milli-Celsius, that counts as terrestrial.
pub const TERRESTRIAL_MIN: i32 = -100000;

/// The warmest temperature, in milli-Celsius, that counts as terrestrial.
pub const TERRESTRIAL_MAX: i32 = 100000;

/// Whether a temperature in milli-Celsius can be caused by the weather on
/// Earth: from -100 °C to 100 °C, both included.
pub open spec fn terrestrial(millicelsius: int) -> bool {
    TERRESTRIAL_MIN <= millicelsius <= TERRESTRIAL_MAX
}

/// A temperature. Whatever scale it was given in, it is kept in
/// milli-Celsius, and that value is its view.
#[derive(Clone, Copy, Debug)]
pub struct Temperature {
    /// The value in thousandths of a degree Celsius.
    temperature: i32,
}

impl View for Temperature {
    type V = int;

    closed spec fn view(&self) -> int {
        self.temperature as int
    }
}

impl Temperature {
    /// A temperature from a value in `unit`. It exists exactly when the value
    /// can be expressed in milli-Celsius; otherwise the converter's error is
    /// handed on unchanged.
    pub fn new(temperature: i32, unit: TemperatureUnit) -> (result: Result<
        Temperature,
        ConversionError,
    >)
        ensures
            match conversion(temperature as int, unit, TemperatureUnit::MilliCelsius) {
                Ok(millicelsius) => result matches Ok(created) && created@ == millicelsius,
                Err(error) => result == Err::<Temperature, ConversionError>(error),
            },
    {
        let millidegree_celsius_temperature: i32 = convert_temperature(
            temperature,
            unit,
            TemperatureUnit::MilliCelsius,
        )?;
        Ok(Temperature { temperature: millidegree_celsius_temperature })
    }

    /// The temperature expressed in `unit`, where the exact value fits in 32
    /// bits; otherwise the converter's error. In milli-Celsius it always
    /// fits.
    pub fn get_temperature_value(&self, unit: TemperatureUnit) -> (result: Result<
        i32,
        ConversionError,
    >)
        ensures
            result == conversion(self@, TemperatureUnit::MilliCelsius, unit),
            unit == TemperatureUnit::MilliCelsius ==> result == Ok::<i32, ConversionError>(
                self@ as i32,
            ),
    {
        let temperature: i32 = convert_temperature(
            self.temperature,
            TemperatureUnit::MilliCelsius,
            unit,
        )?;
        Ok(temperature)
    }

    /// Whether the weather on Earth can cause this temperature: whether it
    /// lies between `TERRESTRIAL_MIN` and `TERRESTRIAL_MAX`, both included.
    pub fn is_terrestrial(&self) -> (result: bool)
        ensures
            result == terrestrial(self@),
    {
        TERRESTRIAL_MIN <= self.temperature && self.temperature <= TERRESTRIAL_MAX
    }

    /// The kept value always fits in 32 bits.
    pub proof fn lemma_view_fits_i32(self)
        ensures
            i32::MIN <= self@ <= i32::MAX,
    {
    }
}

} // verus!
