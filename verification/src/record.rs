//! What the sensor measured, and the record that is logged and shown.

use crate::clock::Timestamp;
use vstd::prelude::*;

verus! {

/// One reading of the sensor. Humidity and temperature are carried as the
/// bit patterns of the sensor's single-precision values and are not looked
/// into here.
#[derive(Clone, Copy, Debug, PartialEq, Eq, Structural)]
pub struct Measurement {
    pub co2: u16,
    pub humidity: u32,
    pub temperature: u32,
}

/// One reading with the time at which it was taken.
#[derive(Clone, Copy, Debug, PartialEq, Eq, Structural)]
pub struct MeasurementData {
    pub co2: u16,
    pub humidity: u32,
    pub temperature: u32,
    pub timestamp: Timestamp,
}

impl MeasurementData {
    /// The record of a reading taken at the given time.
    pub fn new(reading: Measurement, timestamp: Timestamp) -> (record: MeasurementData)
        ensures
            record == stamped(reading, timestamp),
    {
        MeasurementData {
            co2: reading.co2,
            humidity: reading.humidity,
            temperature: reading.temperature,
            timestamp,
        }
    }
}

/// A reading with its time.
pub open spec fn stamped(reading: Measurement, timestamp: Timestamp) -> MeasurementData {
    MeasurementData {
        co2: reading.co2,
        humidity: reading.humidity,
        temperature: reading.temperature,
        timestamp,
    }
}

} // verus!
