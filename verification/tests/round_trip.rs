use thermometry::utils::temperature::converter::convert_temperature;
use thermometry::TemperatureUnit;

const UNITS: [TemperatureUnit; 3] = [
    TemperatureUnit::MilliCelsius,
    TemperatureUnit::MilliFahrenheit,
    TemperatureUnit::MilliKelvin,
];

/// A fixed run of values: every value near zero and near the freezing points,
/// every whole degree for some way out, and a spread over the rest of `i32`.
fn samples() -> Vec<i32> {
    let mut values: Vec<i32> = Vec::new();
    for value in -3000..3000 {
        values.push(value);
        values.push(32_000 + value);
        values.push(273_150 + value);
    }
    for degree in -2000..2000 {
        values.push(degree * 1000);
    }
    let mut state: u64 = 0x9E37_79B9_7F4A_7C15;
    for _ in 0..4000 {
        state = state
            .wrapping_mul(6364136223846793005)
            .wrapping_add(1442695040888963407);
        values.push((state >> 32) as u32 as i32);
    }
    values
}

/// There and back, where both conversions succeed.
fn there_and_back(value: i32, from: TemperatureUnit, via: TemperatureUnit) -> Option<i32> {
    let there = convert_temperature(value, from, via).ok()?;
    convert_temperature(there, via, from).ok()
}

/// Whether the way from `from` to `via` and back can change the whole degrees.
fn can_cross_a_degree(from: TemperatureUnit, via: TemperatureUnit) -> bool {
    matches!(
        (from, via),
        (TemperatureUnit::MilliFahrenheit, TemperatureUnit::MilliCelsius)
            | (TemperatureUnit::MilliFahrenheit, TemperatureUnit::MilliKelvin)
            | (TemperatureUnit::MilliKelvin, TemperatureUnit::MilliFahrenheit)
    )
}

#[test]
fn there_and_back_loses_at_most_two_thousandths() {
    for from in UNITS {
        for via in UNITS {
            for value in samples() {
                if let Some(back) = there_and_back(value, from, via) {
                    let lost = (value as i64 - back as i64).abs();
                    assert!(lost <= 2);
                    // What is lost is lost toward the freezing point.
                    let freezing = match from {
                        TemperatureUnit::MilliCelsius => 0,
                        TemperatureUnit::MilliFahrenheit => 32_000,
                        TemperatureUnit::MilliKelvin => 273_150,
                    };
                    if value >= freezing {
                        assert!(freezing <= back && back <= value);
                    } else {
                        assert!(value <= back && back <= freezing);
                    }
                }
            }
        }
    }
}

#[test]
fn celsius_and_kelvin_come_back_unchanged() {
    let c = TemperatureUnit::MilliCelsius;
    let k = TemperatureUnit::MilliKelvin;
    for value in samples() {
        if let Some(back) = there_and_back(value, c, k) {
            assert_eq!(back, value);
        }
        if let Some(back) = there_and_back(value, k, c) {
            assert_eq!(back, value);
        }
    }
}

#[test]
fn whole_degrees_survive_where_no_degree_can_be_crossed() {
    for from in UNITS {
        for via in UNITS {
            if can_cross_a_degree(from, via) {
                continue;
            }
            for value in samples() {
                if let Some(back) = there_and_back(value, from, via) {
                    assert_eq!(back / 1000, value / 1000);
                }
            }
        }
    }
}

#[test]
fn whole_degrees_survive_where_the_loss_crosses_none() {
    let f = TemperatureUnit::MilliFahrenheit;
    let c = TemperatureUnit::MilliCelsius;
    let k = TemperatureUnit::MilliKelvin;
    // 98.6 °F is exactly 37 °C.
    assert_eq!(there_and_back(98600, f, c), Some(98600));
    // 33.5 °F loses one thousandth, well inside its degree.
    assert_eq!(there_and_back(33500, f, c), Some(33499));
    assert_eq!(there_and_back(33500, f, k), Some(33499));
    // 300.001 K loses one thousandth and stays at 300 K.
    assert_eq!(there_and_back(300_001, k, f), Some(300_000));
}

#[test]
fn a_loss_across_a_degree_changes_the_whole_degrees() {
    let f = TemperatureUnit::MilliFahrenheit;
    let c = TemperatureUnit::MilliCelsius;
    let k = TemperatureUnit::MilliKelvin;
    // 33 °F is 0.555.. °C, kept as 555, which is 32.999 °F.
    assert_eq!(convert_temperature(33000, f, c), Ok(555));
    assert_eq!(convert_temperature(555, c, f), Ok(32999));
    assert_eq!(there_and_back(33000, f, k), Some(32999));
    // Below freezing the loss goes upward: 31.999 °F comes back as 32 °F.
    assert_eq!(there_and_back(31999, f, c), Some(32000));
    // 0.999 K comes back as 1 K.
    assert_eq!(convert_temperature(999, k, f), Ok(-457871));
    assert_eq!(convert_temperature(-457871, f, k), Ok(1000));
    // Two thousandths at once.
    assert_eq!(there_and_back(35000, f, c), Some(34998));
}
