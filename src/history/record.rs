use vstd::prelude::*;

verus! {

/// One time step of the history log, with the four channels side by side.
#[derive(Debug, Default, Clone, Copy, PartialEq, Eq, Structural)]
pub struct DataRecord {
    /// Hundredths of a degree Fahrenheit.
    pub temperature: u32,
    /// Relative humidity in percent.
    pub humidity: u8,
    /// Tenths of a kilopascal.
    pub pressure: u16,
    /// CO2 level in ppm.
    pub co2: u16,
}

} // verus!
