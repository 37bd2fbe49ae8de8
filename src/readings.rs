use vstd::prelude::*;

use crate::error::SensorError;
use crate::protocol::{centi_fahrenheit, le16_at};

verus! {

/// Length of the current-reading packet.
pub const READING_PACKET_SIZE: usize = 9;

/// One snapshot of the sensor, in fixed-point physical units.
#[derive(Debug, Default, Clone, Copy, PartialEq, Eq, Structural)]
pub struct SensorReadings {
    /// CO2 level in ppm.
    pub co2_level: u16,
    /// Temperature in hundredths of a degree Fahrenheit.
    pub temperature: u32,
    /// Pressure in tenths of a kilopascal.
    pub pressure: u16,
    /// Relative humidity in percent.
    pub humidity: u8,
    /// Battery charge in percent.
    pub battery: u8,
    /// Indicator colour code, not interpreted.
    pub status_color: u8,
}

/// The reading that a packet of nine or more bytes holds: co2, temperature,
/// pressure as little-endian `u16`, then humidity, battery and status bytes.
/// The sensor sends temperature in twentieths of a degree Celsius, converted
/// here to hundredths of a degree Fahrenheit, and pressure in tenths of a
/// kilopascal.
pub open spec fn reading_of(b: Seq<u8>) -> SensorReadings {
    SensorReadings {
        co2_level: le16_at(b, 0) as u16,
        temperature: centi_fahrenheit(le16_at(b, 2) as u16) as u32,
        pressure: le16_at(b, 4) as u16,
        humidity: b[6],
        battery: b[7],
        status_color: b[8],
    }
}

impl SensorReadings {
    /// A reading with every value zero, for displays before the first read.
    pub fn empty() -> (r: SensorReadings)
        ensures
            r == (SensorReadings {
                co2_level: 0,
                temperature: 0,
                pressure: 0,
                humidity: 0,
                battery: 0,
                status_color: 0,
            }),
    {
        SensorReadings {
            co2_level: 0,
            temperature: 0,
            pressure: 0,
            humidity: 0,
            battery: 0,
            status_color: 0,
        }
    }

    /// Decodes the current-reading packet; fails on fewer than nine bytes.
    /// Values are not range-checked.
    pub fn from_raw(bytes: Vec<u8>) -> (r: Result<SensorReadings, SensorError>)
        ensures
            bytes@.len() < 9 ==> r == Err::<SensorReadings, SensorError>(
                SensorError::ByteReadError,
            ),
            bytes@.len() >= 9 ==> r == Ok::<SensorReadings, SensorError>(reading_of(bytes@)),
    {
        if bytes.len() < READING_PACKET_SIZE {
            return Err(SensorError::ByteReadError);
        }
        let b = bytes.as_slice();
        Ok(
            SensorReadings {
                co2_level: crate::protocol::read_u16_le(b, 0),
                temperature: crate::protocol::convert_temperature(
                    crate::protocol::read_u16_le(b, 2),
                ),
                pressure: crate::protocol::read_u16_le(b, 4),
                humidity: b[6],
                battery: b[7],
                status_color: b[8],
            },
        )
    }

    /// CO2 level, in ppm.
    pub fn co2_level(&self) -> (r: u16)
        ensures
            r == self.co2_level,
    {
        self.co2_level
    }

    /// Temperature in hundredths of a degree Fahrenheit.
    pub fn temperature(&self) -> (r: u32)
        ensures
            r == self.temperature,
    {
        self.temperature
    }

    /// Pressure in tenths of a kilopascal.
    pub fn pressure(&self) -> (r: u16)
        ensures
            r == self.pressure,
    {
        self.pressure
    }

    /// Relative humidity, in percent.
    pub fn humidity(&self) -> (r: u8)
        ensures
            r == self.humidity,
    {
        self.humidity
    }

    /// Battery charge, in percent.
    pub fn battery(&self) -> (r: u8)
        ensures
            r == self.battery,
    {
        self.battery
    }

    /// Raw indicator colour code.
    pub fn status_color(&self) -> (r: u8)
        ensures
            r == self.status_color,
    {
        self.status_color
    }
}

} // verus!
