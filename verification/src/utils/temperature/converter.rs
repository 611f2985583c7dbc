//! Conversion of a value in thousandths of a degree from one scale to another.
//!
//! The arithmetic is carried out on 64-bit integers, where it cannot overflow,
//! and the result is then narrowed to 32 bits. Narrowing is the only step that
//! can fail.

use crate::error::ConversionError;
use crate::TemperatureUnit;
use vstd::prelude::*;

verus! {

/// The freezing point of water in milli-Fahrenheit.
pub const FAHRENHEIT_OFFSET: i64 = 32000;

/// The freezing point of water in milli-Kelvin.
pub const KELVIN_OFFSET: i64 = 273150;

/// The quotient of `a` by a positive `b` with the fraction dropped, that is,
/// rounded toward zero.
pub open spec fn div_toward_zero(a: int, b: int) -> int
    recommends
        b > 0,
{
    if a >= 0 {
        a / b
    } else {
        -((-a) / b)
    }
}

/// The exact result of converting `value` from `from` to `to`, before it is
/// narrowed to 32 bits.
pub open spec fn converted_value(value: int, from: TemperatureUnit, to: TemperatureUnit) -> int {
    match (from, to) {
        (TemperatureUnit::MilliCelsius, TemperatureUnit::MilliCelsius) => value,
        (TemperatureUnit::MilliFahrenheit, TemperatureUnit::MilliFahrenheit) => value,
        (TemperatureUnit::MilliKelvin, TemperatureUnit::MilliKelvin) => value,
        (TemperatureUnit::MilliCelsius, TemperatureUnit::MilliFahrenheit) => div_toward_zero(
            value * 9,
            5,
        ) + FAHRENHEIT_OFFSET,
        (TemperatureUnit::MilliFahrenheit, TemperatureUnit::MilliCelsius) => div_toward_zero(
            (value - FAHRENHEIT_OFFSET) * 5,
            9,
        ),
        (TemperatureUnit::MilliCelsius, TemperatureUnit::MilliKelvin) => value + KELVIN_OFFSET,
        (TemperatureUnit::MilliKelvin, TemperatureUnit::MilliCelsius) => value - KELVIN_OFFSET,
        (TemperatureUnit::MilliFahrenheit, TemperatureUnit::MilliKelvin) => div_toward_zero(
            (value - FAHRENHEIT_OFFSET) * 5,
            9,
        ) + KELVIN_OFFSET,
        (TemperatureUnit::MilliKelvin, TemperatureUnit::MilliFahrenheit) => div_toward_zero(
            (value - KELVIN_OFFSET) * 9,
            5,
        ) + FAHRENHEIT_OFFSET,
    }
}

/// What narrowing an exact result to 32 bits gives: the value itself where it
/// fits, and otherwise the error for the side on which it lies.
pub open spec fn narrowed(exact: int) -> Result<i32, ConversionError> {
    if exact < i32::MIN {
        Err(ConversionError::TooLow(exact as i64))
    } else if exact > i32::MAX {
        Err(ConversionError::TooHigh(exact as i64))
    } else {
        Ok(exact as i32)
    }
}

/// The outcome of converting `value` from `from` to `to`.
pub open spec fn conversion(value: int, from: TemperatureUnit, to: TemperatureUnit) -> Result<
    i32,
    ConversionError,
> {
    narrowed(converted_value(value, from, to))
}

/// Converts a value in thousandths of a degree of `from_unit` into
/// thousandths of a degree of `to_unit`.
///
/// The result is the exact value wherever that fits in 32 bits. It is never
/// wrapped or clamped: an exact value out of range comes back inside the
/// error for its side. Within one scale nothing changes.
pub fn convert_temperature(
    temperature: i32,
    from_unit: TemperatureUnit,
    to_unit: TemperatureUnit,
) -> (result: Result<i32, ConversionError>)
    ensures
        result == conversion(temperature as int, from_unit, to_unit),
        from_unit == to_unit ==> result == Ok::<i32, ConversionError>(temperature),
        ({
            let exact = converted_value(temperature as int, from_unit, to_unit);
            &&& i64::MIN <= exact <= i64::MAX
            &&& exact < i32::MIN ==> result == Err::<i32, ConversionError>(
                ConversionError::TooLow(exact as i64),
            )
            &&& exact > i32::MAX ==> result == Err::<i32, ConversionError>(
                ConversionError::TooHigh(exact as i64),
            )
            &&& i32::MIN <= exact <= i32::MAX ==> result == Ok::<i32, ConversionError>(
                exact as i32,
            )
        }),
{
    match to_unit {
        TemperatureUnit::MilliCelsius => convert_to_millicelsius(temperature, from_unit),
        TemperatureUnit::MilliFahrenheit => convert_to_millifahrenheit(temperature, from_unit),
        TemperatureUnit::MilliKelvin => convert_to_millikelvin(temperature, from_unit),
    }
}

/// Converts a value from any scale into milli-Celsius.
fn convert_to_millicelsius(temperature: i32, unit: TemperatureUnit) -> (result: Result<
    i32,
    ConversionError,
>)
    ensures
        result == conversion(temperature as int, unit, TemperatureUnit::MilliCelsius),
{
    let wide: i64 = temperature as i64;
    let converted_temperature: i64 = match unit {
        TemperatureUnit::MilliCelsius => wide,
        TemperatureUnit::MilliFahrenheit => (wide - FAHRENHEIT_OFFSET) * 5 / 9,
        TemperatureUnit::MilliKelvin => wide - KELVIN_OFFSET,
    };
    try_convert(converted_temperature)
}

/// Converts a value from any scale into milli-Fahrenheit.
fn convert_to_millifahrenheit(temperature: i32, unit: TemperatureUnit) -> (result: Result<
    i32,
    ConversionError,
>)
    ensures
        result == conversion(temperature as int, unit, TemperatureUnit::MilliFahrenheit),
{
    let wide: i64 = temperature as i64;
    let converted_temperature: i64 = match unit {
        TemperatureUnit::MilliCelsius => wide * 9 / 5 + FAHRENHEIT_OFFSET,
        TemperatureUnit::MilliFahrenheit => wide,
        TemperatureUnit::MilliKelvin => (wide - KELVIN_OFFSET) * 9 / 5 + FAHRENHEIT_OFFSET,
    };
    try_convert(converted_temperature)
}

/// Converts a value from any scale into milli-Kelvin.
fn convert_to_millikelvin(temperature: i32, unit: TemperatureUnit) -> (result: Result<
    i32,
    ConversionError,
>)
    ensures
        result == conversion(temperature as int, unit, TemperatureUnit::MilliKelvin),
{
    let wide: i64 = temperature as i64;
    let converted_temperature: i64 = match unit {
        TemperatureUnit::MilliCelsius => wide + KELVIN_OFFSET,
        TemperatureUnit::MilliFahrenheit => (wide - FAHRENHEIT_OFFSET) * 5 / 9 + KELVIN_OFFSET,
        TemperatureUnit::MilliKelvin => wide,
    };
    try_convert(converted_temperature)
}

/// Narrows a 64-bit temperature to 32 bits. A value that does not fit comes
/// back as `TooLow` or `TooHigh`, by its sign.
fn try_convert(temperature: i64) -> (result: Result<i32, ConversionError>)
    ensures
        result == narrowed(temperature as int),
{
    match i32::try_from(temperature) {
        Ok(narrow) => Ok(narrow),
        Err(_) => {
            if temperature < 0 {
                Err(ConversionError::TooLow(temperature))
            } else {
                Err(ConversionError::TooHigh(temperature))
            }
        },
    }
}

} // verus!
