//! What is left of a value after it is converted to another scale and back.
//!
//! Between Celsius and Kelvin nothing is lost. Scaling by 9/5 and back by 5/9
//! can lose one thousandth, and scaling by 5/9 and back by 9/5 up to two: each
//! division drops a fraction, and always toward the point at which water
//! freezes. Such a loss mostly stays inside a degree, but not always: 33 °F is
//! kept as 0.555 °C and comes back as 32.999 °F.

use crate::error::ConversionError;
use crate::utils::temperature::converter::{
    conversion, converted_value, div_toward_zero, FAHRENHEIT_OFFSET, KELVIN_OFFSET,
};
use crate::TemperatureUnit;
use vstd::prelude::*;

verus! {

/// The whole degrees in a value in thousandths of a degree, with the
/// fraction dropped.
pub open spec fn whole_degrees(value: int) -> int {
    div_toward_zero(value, 1000)
}

/// The point at which water freezes, in thousandths of a degree of `unit`.
pub open spec fn freezing_point(unit: TemperatureUnit) -> int {
    match unit {
        TemperatureUnit::MilliCelsius => 0,
        TemperatureUnit::MilliFahrenheit => FAHRENHEIT_OFFSET as int,
        TemperatureUnit::MilliKelvin => KELVIN_OFFSET as int,
    }
}

/// The exact result of converting `value` from `from` to `via` and back again.
pub open spec fn round_trip(value: int, from: TemperatureUnit, via: TemperatureUnit) -> int {
    converted_value(converted_value(value, from, via), via, from)
}

/// The outcome of converting `value` from `from` to `via` and the result back
/// to `from`: the value that comes back, or the error of the conversion that
/// failed first.
pub open spec fn there_and_back(value: int, from: TemperatureUnit, via: TemperatureUnit) -> Result<
    i32,
    ConversionError,
> {
    match conversion(value, from, via) {
        Ok(there) => conversion(there as int, via, from),
        Err(error) => Err(error),
    }
}

/// The number of thousandths by which the way from `from` to `via` and back
/// brings `value` closer to the freezing point.
pub open spec fn round_trip_loss(value: int, from: TemperatureUnit, via: TemperatureUnit) -> int {
    let above = value - freezing_point(from);
    let distance = if above >= 0 {
        above
    } else {
        -above
    };
    match (from, via) {
        (TemperatureUnit::MilliCelsius, TemperatureUnit::MilliFahrenheit) | (
            TemperatureUnit::MilliKelvin,
            TemperatureUnit::MilliFahrenheit,
        ) => if distance % 5 == 0 {
            0
        } else {
            1
        },
        (TemperatureUnit::MilliFahrenheit, TemperatureUnit::MilliCelsius) | (
            TemperatureUnit::MilliFahrenheit,
            TemperatureUnit::MilliKelvin,
        ) => {
            let dropped = (5 * distance) % 9;
            if dropped == 0 {
                0
            } else if dropped <= 5 {
                1
            } else {
                2
            }
        },
        _ => 0,
    }
}

/// The value that `value` comes back as: itself, moved toward the freezing
/// point by what the way there and back loses.
pub open spec fn returned_value(value: int, from: TemperatureUnit, via: TemperatureUnit) -> int {
    if value >= freezing_point(from) {
        value - round_trip_loss(value, from, via)
    } else {
        value + round_trip_loss(value, from, via)
    }
}

/// Whether what the way from `from` to `via` and back loses of `value` stays
/// inside a degree, so that `value` and what it comes back as have the same
/// whole degrees.
pub open spec fn keeps_whole_degrees(
    value: int,
    from: TemperatureUnit,
    via: TemperatureUnit,
) -> bool {
    whole_degrees(returned_value(value, from, via)) == whole_degrees(value)
}

/// Converting a value to another scale and back gives `returned_value`, which
/// is never more than two thousandths away from the value.
pub proof fn lemma_round_trip_returns(value: int, from: TemperatureUnit, via: TemperatureUnit)
    ensures
        round_trip(value, from, via) == returned_value(value, from, via),
        0 <= round_trip_loss(value, from, via) <= 2,
        -2 <= round_trip(value, from, via) - value <= 2,
{
    let above = value - freezing_point(from);
    let distance = if above >= 0 {
        above
    } else {
        -above
    };
    match (from, via) {
        (TemperatureUnit::MilliCelsius, TemperatureUnit::MilliFahrenheit) | (
            TemperatureUnit::MilliKelvin,
            TemperatureUnit::MilliFahrenheit,
        ) => {
            lemma_widen_and_back(distance);
            let there = div_toward_zero(above * 9, 5);
            assert(there == if above >= 0 {
                distance * 9 / 5
            } else {
                -(distance * 9 / 5)
            });
            assert(converted_value(value, from, via) == there + FAHRENHEIT_OFFSET);
            assert(round_trip(value, from, via) == div_toward_zero(there * 5, 9) + freezing_point(
                from,
            ));
        },
        (TemperatureUnit::MilliFahrenheit, TemperatureUnit::MilliCelsius) | (
            TemperatureUnit::MilliFahrenheit,
            TemperatureUnit::MilliKelvin,
        ) => {
            lemma_shrink_and_back(distance);
            let there = div_toward_zero(above * 5, 9);
            assert(there == if above >= 0 {
                distance * 5 / 9
            } else {
                -(distance * 5 / 9)
            });
            assert(converted_value(value, from, via) == there + freezing_point(via));
            assert(round_trip(value, from, via) == div_toward_zero(there * 9, 5)
                + FAHRENHEIT_OFFSET);
        },
        _ => {},
    }
}

/// Scaling a distance by 9/5 and back by 5/9 loses one unit, unless the
/// distance is a multiple of five.
proof fn lemma_widen_and_back(distance: int)
    requires
        distance >= 0,
    ensures
        distance * 9 / 5 >= 0,
        (distance * 9 / 5) * 5 / 9 == distance - if distance % 5 == 0 {
            0int
        } else {
            1int
        },
{
}

/// Scaling a distance by 5/9 and back by 9/5 loses nothing where the first
/// division is exact, one unit where it drops up to five ninths, and two
/// units beyond that.
proof fn lemma_shrink_and_back(distance: int)
    requires
        distance >= 0,
    ensures
        distance * 5 / 9 >= 0,
        (distance * 5 / 9) * 9 / 5 == distance - if (5 * distance) % 9 == 0 {
            0int
        } else if (5 * distance) % 9 <= 5 {
            1int
        } else {
            2int
        },
{
}

/// Six of the nine ways there and back keep the whole degrees of every
/// value: those that never leave their scale, those that start in Celsius,
/// and the one from Kelvin to Celsius. The other three, from Fahrenheit to
/// Celsius or Kelvin and from Kelvin to Fahrenheit, do not.
pub proof fn lemma_ways_that_keep_whole_degrees(
    value: int,
    from: TemperatureUnit,
    via: TemperatureUnit,
)
    requires
        from == via || from == TemperatureUnit::MilliCelsius || (from
            == TemperatureUnit::MilliKelvin && via == TemperatureUnit::MilliCelsius),
    ensures
        keeps_whole_degrees(value, from, via),
{
}

/// For a value that survives both conversions, what `there_and_back` gives
/// is `returned_value`, at most two thousandths away from the value.
pub proof fn lemma_there_and_back_returns(
    value: i32,
    from: TemperatureUnit,
    via: TemperatureUnit,
)
    ensures
        there_and_back(value as int, from, via) matches Ok(back) ==> {
            &&& back == returned_value(value as int, from, via)
            &&& -2 <= back - value <= 2
        },
{
    lemma_round_trip_returns(value as int, from, via);
}

/// Where both conversions succeed and the loss stays inside a degree, the
/// value that comes back has the whole degrees of the one that went out.
pub proof fn lemma_there_and_back_keeps_whole_degrees(
    value: i32,
    from: TemperatureUnit,
    via: TemperatureUnit,
)
    requires
        keeps_whole_degrees(value as int, from, via),
    ensures
        there_and_back(value as int, from, via) matches Ok(back) ==> whole_degrees(back as int)
            == whole_degrees(value as int),
{
    lemma_round_trip_returns(value as int, from, via);
}

/// Where both conversions succeed and the loss crosses into another degree,
/// the value that comes back has other whole degrees than the one that went
/// out.
pub proof fn lemma_there_and_back_crosses_a_degree(
    value: i32,
    from: TemperatureUnit,
    via: TemperatureUnit,
)
    requires
        !keeps_whole_degrees(value as int, from, via),
    ensures
        there_and_back(value as int, from, via) matches Ok(back) ==> whole_degrees(back as int)
            != whole_degrees(value as int),
{
    lemma_round_trip_returns(value as int, from, via);
}

} // verus!
