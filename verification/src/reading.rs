//! What a measurement yields.

use vstd::prelude::*;

verus! {

/// The scale in which a temperature is reported.
#[derive(Copy, Clone, Debug, Ord, PartialOrd, Eq, PartialEq, Structural)]
pub enum TemperatureUnit {
    Celsius,
    Fahrenheit,
}

impl Default for TemperatureUnit {
    /// Fahrenheit, the scale a new sensor reports in.
    fn default() -> (unit: Self)
        ensures
            unit == TemperatureUnit::Fahrenheit,
    {
        TemperatureUnit::Fahrenheit
    }
}

/// A temperature sample as the sensor counts it, with the scale that was
/// configured when the measurement began.
///
/// `raw` is the signed register value, of which the degrees of either scale
/// are a fixed linear function. Computing them takes floating point, which
/// is left to the caller.
#[derive(Copy, Clone, Debug, Eq, PartialEq, Structural)]
pub struct Temperature {
    pub raw: i32,
    pub unit: TemperatureUnit,
}

/// One temperature sample and one moisture sample, taken one after the other.
///
/// `moisture` is the sensor's capacitive count as sent, on the sensor's own
/// scale.
#[derive(Copy, Clone, Debug, Eq, PartialEq, Structural)]
pub struct Reading {
    pub temperature: Temperature,
    pub moisture: u16,
}

} // verus!
