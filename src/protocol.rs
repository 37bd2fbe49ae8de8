use vstd::prelude::*;

verus! {

/// Identifiers of the sensor's own GATT service and characteristics.
#[non_exhaustive]
pub struct AranetService;

/// Identifiers of the standard generic-access service.
#[non_exhaustive]
pub struct GenericService;

/// Identifiers of the standard device-information service.
#[non_exhaustive]
pub struct CommonService;

impl AranetService {
    pub const UUID: u128 = 0xf0cd1400_95da_4f4b_9ac8_aa55d312af0c;
    pub const READ_CURRENT_READINGS: u128 = 0xf0cd1503_95da_4f4b_9ac8_aa55d312af0c;
    pub const READ_INTERVAL: u128 = 0xf0cd2002_95da_4f4b_9ac8_aa55d312af0c;
    pub const READ_SECONDS_SINCE_UPDATE: u128 = 0xf0cd2004_95da_4f4b_9ac8_aa55d312af0c;
    pub const READ_TOTAL_READINGS: u128 = 0xf0cd2001_95da_4f4b_9ac8_aa55d312af0c;
    pub const READ_HISTORY_READINGS: u128 = 0xf0cd2005_95da_4f4b_9ac8_aa55d312af0c;
    pub const WRITE_CMD: u128 = 0xf0cd1402_95da_4f4b_9ac8_aa55d312af0c;
}

impl GenericService {
    pub const UUID: u128 = 0x00001800_0000_1000_8000_00805f9b34fb;
    pub const READ_DEVICE_NAME: u128 = 0x00002a00_0000_1000_8000_00805f9b34fb;
}

impl CommonService {
    pub const UUID: u128 = 0x0000180a_0000_1000_8000_00805f9b34fb;
    pub const READ_MANUFACTURER_NAME: u128 = 0x00002a29_0000_1000_8000_00805f9b34fb;
    pub const READ_MODEL_NUMBER: u128 = 0x00002a24_0000_1000_8000_00805f9b34fb;
    pub const READ_SERIAL_NO: u128 = 0x00002a25_0000_1000_8000_00805f9b34fb;
    pub const READ_HW_REV: u128 = 0x00002a27_0000_1000_8000_00805f9b34fb;
    pub const READ_SW_REV: u128 = 0x00002a28_0000_1000_8000_00805f9b34fb;
    pub const READ_BATTERY: u128 = 0x00002a19_0000_1000_8000_00805f9b34fb;
}

/// The four quantities the sensor keeps a history log of.
#[derive(Debug, PartialEq, Eq, Structural, Clone, Copy)]
pub enum LogParameter {
    Temperature,
    Humidity,
    Pressure,
    Co2,
}

/// Wire tag of each parameter.
pub open spec fn tag_of(p: LogParameter) -> u8 {
    match p {
        LogParameter::Temperature => 1,
        LogParameter::Humidity => 2,
        LogParameter::Pressure => 3,
        LogParameter::Co2 => 4,
    }
}

/// The parameter a wire tag stands for, if any.
pub open spec fn parameter_of(tag: u8) -> Option<LogParameter> {
    if tag == 1 {
        Some(LogParameter::Temperature)
    } else if tag == 2 {
        Some(LogParameter::Humidity)
    } else if tag == 3 {
        Some(LogParameter::Pressure)
    } else if tag == 4 {
        Some(LogParameter::Co2)
    } else {
        None
    }
}

/// Bytes per history sample: humidity is logged in one byte, the rest in two.
pub open spec fn width_of(p: LogParameter) -> nat {
    match p {
        LogParameter::Humidity => 1,
        _ => 2,
    }
}

impl LogParameter {
    /// The byte that names this parameter on the wire.
    pub fn tag(self) -> (r: u8)
        ensures
            r == tag_of(self),
    {
        match self {
            LogParameter::Temperature => 1,
            LogParameter::Humidity => 2,
            LogParameter::Pressure => 3,
            LogParameter::Co2 => 4,
        }
    }

    /// The parameter named by a wire byte; `None` for an unknown byte.
    pub fn from_tag(tag: u8) -> (r: Option<LogParameter>)
        ensures
            r == parameter_of(tag),
    {
        match tag {
            1 => Some(LogParameter::Temperature),
            2 => Some(LogParameter::Humidity),
            3 => Some(LogParameter::Pressure),
            4 => Some(LogParameter::Co2),
            _ => None,
        }
    }

    /// Number of bytes one history sample of this parameter takes.
    pub fn sample_width(self) -> (r: usize)
        ensures
            r == width_of(self),
    {
        match self {
            LogParameter::Humidity => 1,
            _ => 2,
        }
    }
}

/// A tag names a parameter exactly when it is the tag of that parameter.
pub proof fn lemma_tag_round_trip(p: LogParameter, tag: u8)
    ensures
        parameter_of(tag_of(p)) == Some(p),
        parameter_of(tag) matches Some(q) ==> tag_of(q) == tag,
{
}

/// Value of the little-endian 16-bit integer stored at `at`.
pub open spec fn le16_at(b: Seq<u8>, at: int) -> int {
    b[at] as int + 256 * b[at + 1] as int
}

/// Relies on byteorder's `LittleEndian::read_u16`: the first two bytes of the
/// slice taken as a little-endian integer (it panics on fewer than two).
#[verifier::external_body]
pub(crate) fn read_u16_le(bytes: &[u8], at: usize) -> (r: u16)
    requires
        at + 2 <= bytes@.len(),
    ensures
        r as int == le16_at(bytes@, at as int),
{
    <byteorder::LittleEndian as byteorder::ByteOrder>::read_u16(&bytes[at..at + 2])
}

/// Temperature in hundredths of a degree Fahrenheit for a raw reading, which
/// counts twentieths of a degree Celsius: `(raw / 20) * 1.8 + 32`.
pub open spec fn centi_fahrenheit(raw: u16) -> int {
    9 * raw as int + 3200
}

/// Converts a raw temperature to hundredths of a degree Fahrenheit.
pub fn convert_temperature(temp: u16) -> (r: u32)
    ensures
        r as int == centi_fahrenheit(temp),
{
    9 * (temp as u32) + 3200
}

} // verus!
