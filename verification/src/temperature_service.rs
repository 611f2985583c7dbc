//! A collection of plausible readings and their mean.

use crate::error::AggregationError;
use crate::temperature::{terrestrial, Temperature};
use crate::utils::temperature::converter::{conversion, div_toward_zero};
use crate::TemperatureUnit;
use vstd::prelude::*;

verus! {

/// The sum of a sequence of integers.
pub open spec fn total(values: Seq<int>) -> int
    decreases values.len(),
{
    if values.len() == 0 {
        0
    } else {
        total(values.drop_last()) + values.last()
    }
}

/// The mean of a sequence of integers that is not empty, with the fraction
/// dropped.
pub open spec fn mean(values: Seq<int>) -> int
    recommends
        values.len() > 0,
{
    div_toward_zero(total(values), values.len() as int)
}

/// Whether every value of the sequence is a terrestrial temperature in
/// milli-Celsius.
pub open spec fn all_terrestrial(values: Seq<int>) -> bool {
    forall|i: int| 0 <= i < values.len() ==> terrestrial(#[trigger] values[i])
}

/// The readings taken so far, in the order in which they came. Its view is
/// the sequence of their values in milli-Celsius. It only ever holds
/// terrestrial temperatures.
#[derive(Debug)]
pub struct TemperatureService {
    temperatures: Vec<Temperature>,
}

impl View for TemperatureService {
    type V = Seq<int>;

    closed spec fn view(&self) -> Seq<int> {
        self.temperatures@.map_values(|reading: Temperature| reading@)
    }
}

impl TemperatureService {
    /// Holds of every service at every moment: nothing but `add_temperature`
    /// puts a reading in, and it turns down what is not terrestrial.
    #[verifier::type_invariant]
    spec fn holds_terrestrial_only(&self) -> bool {
        all_terrestrial(self@)
    }

    /// A service that holds no reading yet.
    pub fn new() -> (service: TemperatureService)
        ensures
            service@ == Seq::<int>::empty(),
    {
        TemperatureService { temperatures: Vec::new() }
    }

    /// The number of readings held. Every one of them is terrestrial.
    pub fn len(&self) -> (count: usize)
        ensures
            count == self@.len(),
            all_terrestrial(self@),
    {
        proof {
            use_type_invariant(self);
        }
        self.temperatures.len()
    }

    /// Takes a reading in. It is appended when it can be expressed in
    /// milli-Celsius and is terrestrial; otherwise the service stays as it
    /// was and the error says which of the two failed.
    pub fn add_temperature(&mut self, temperature_value: i32, unit: TemperatureUnit) -> (result:
        Result<(), AggregationError>)
        ensures
            match conversion(temperature_value as int, unit, TemperatureUnit::MilliCelsius) {
                Err(error) => {
                    &&& result == Err::<(), AggregationError>(AggregationError::Conversion(error))
                    &&& final(self)@ == old(self)@
                },
                Ok(millicelsius) => if terrestrial(millicelsius as int) {
                    &&& result == Ok::<(), AggregationError>(())
                    &&& final(self)@ == old(self)@.push(millicelsius as int)
                } else {
                    &&& result == Err::<(), AggregationError>(AggregationError::NotTerrestrial)
                    &&& final(self)@ == old(self)@
                },
            },
            all_terrestrial(final(self)@),
    {
        proof {
            use_type_invariant(&*self);
        }
        let temperature = match Temperature::new(temperature_value, unit) {
            Ok(temperature) => temperature,
            Err(error) => {
                return Err(AggregationError::Conversion(error));
            },
        };
        if !temperature.is_terrestrial() {
            return Err(AggregationError::NotTerrestrial);
        }
        // The readings leave the service while the vector grows, and come
        // back in one step: the service is never seen half-changed.
        let mut readings: Vec<Temperature> = Vec::new();
        core::mem::swap(&mut self.temperatures, &mut readings);
        readings.push(temperature);
        assert(readings@.map_values(|reading: Temperature| reading@) =~= old(self)@.push(
            temperature@,
        ));
        core::mem::swap(&mut self.temperatures, &mut readings);
        Ok(())
    }

    /// The mean of the readings held, in milli-Celsius, with the fraction
    /// dropped. There must be a reading: `len` tells.
    pub fn get_average(&self) -> (average: i32)
        requires
            self@.len() > 0,
        ensures
            average == mean(self@),
            terrestrial(average as int),
    {
        proof {
            use_type_invariant(self);
        }
        let count: usize = self.temperatures.len();
        let mut sum: i128 = 0;
        let mut index: usize = 0;
        while index < count
            invariant
                index <= count,
                count == self.temperatures@.len(),
                count == self@.len(),
                all_terrestrial(self@),
                sum == total(self@.take(index as int)),
                // each reading lies between TERRESTRIAL_MIN and TERRESTRIAL_MAX
                -100000 * index <= sum <= 100000 * index,
            decreases count - index,
        {
            let value: i32 = self.temperatures[index].get_temperature_value(
                TemperatureUnit::MilliCelsius,
            ).unwrap();
            proof {
                let seen = self@.take(index + 1);
                assert(seen.drop_last() =~= self@.take(index as int));
                assert(seen.last() == self@[index as int]);
                assert(terrestrial(self@[index as int]));
            }
            sum = sum + value as i128;
            index = index + 1;
        }
        proof {
            assert(self@.take(count as int) =~= self@);
            lemma_mean_within_bounds(sum as int, count as int, 100000);
        }
        (sum / (count as i128)) as i32
    }
}

/// A total that lies within `count` times a bound has a mean within the bound.
proof fn lemma_mean_within_bounds(sum: int, count: int, bound: int)
    requires
        count > 0,
        bound >= 0,
        -(bound * count) <= sum <= bound * count,
    ensures
        -bound <= div_toward_zero(sum, count) <= bound,
{
    if sum >= 0 {
        assert(sum / count <= bound) by (nonlinear_arith)
            requires
                count > 0,
                0 <= sum <= bound * count,
        ;
        assert(sum / count >= 0) by (nonlinear_arith)
            requires
                count > 0,
                0 <= sum,
        ;
    } else {
        let opposite = -sum;
        assert(opposite / count <= bound) by (nonlinear_arith)
            requires
                count > 0,
                0 <= opposite <= bound * count,
        ;
        assert(opposite / count >= 0) by (nonlinear_arith)
            requires
                count > 0,
                0 <= opposite,
        ;
    }
}

impl Default for TemperatureService {
    fn default() -> (service: TemperatureService)
        ensures
            service@ == Seq::<int>::empty(),
    {
        TemperatureService::new()
    }
}

} // verus!
