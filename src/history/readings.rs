use vstd::prelude::*;

use crate::error::SensorError;
use crate::history::header::{data_start, HistoryHeader};
use crate::history::pull::{ChannelPull, PullStatus};
use crate::history::record::DataRecord;
use crate::protocol::{centi_fahrenheit, convert_temperature, tag_of, LogParameter};

verus! {

/// Command opcode that asks the sensor for a history channel.
pub const HISTORY_REQUEST_OPCODE: u8 = 0x61;

/// Asks the sensor to stream one history channel from `first_index` on.
#[derive(Debug, Clone, Copy, PartialEq, Eq, Structural)]
pub struct HistoryRequest {
    pub parameter: LogParameter,
    pub first_index: u16,
}

/// Wire form of a request: opcode, parameter tag, little-endian index.
pub open spec fn request_bytes(r: HistoryRequest) -> Seq<u8> {
    seq![
        0x61u8,
        tag_of(r.parameter),
        (r.first_index % 256) as u8,
        (r.first_index / 256) as u8,
    ]
}

impl HistoryRequest {
    /// The four bytes to write to the command characteristic.
    pub fn encode(&self) -> (r: Vec<u8>)
        ensures
            r@ == request_bytes(*self),
    {
        let mut data: Vec<u8> = Vec::new();
        data.push(HISTORY_REQUEST_OPCODE);
        data.push(self.parameter.tag());
        crate::history::header::push_u16_le(&mut data, self.first_index);
        assert(data@ =~= request_bytes(*self));
        data
    }
}

/// Timing of a history log: the sampling interval and when the first sample
/// was taken.
#[derive(Debug, Clone, Copy, PartialEq, Eq, Structural)]
pub struct HistoryInformation {
    /// Seconds between samples.
    pub interval: u16,
    /// Unix time, in seconds, of the first sample.
    pub beginning: i64,
}

/// Timing derived from a channel's first header when the log was read at
/// `now`; where the start would predate the epoch, `now` stands for it.
pub open spec fn information_at(h: HistoryHeader, now: i64) -> HistoryInformation {
    HistoryInformation {
        interval: h.interval,
        beginning: match data_start(h, now) {
            Some(s) => s,
            None => now,
        },
    }
}

impl HistoryInformation {
    /// Timing of a log whose first header is `header`, read at `now`.
    pub fn from_header_at(header: HistoryHeader, now: i64) -> (r: HistoryInformation)
        ensures
            r == information_at(header, now),
    {
        let beginning = match header.get_data_start(now) {
            Some(s) => s,
            None => now,
        };
        HistoryInformation { interval: header.interval, beginning }
    }
}

/// Keeps at most the first `n` items of `s`.
pub open spec fn truncated<T>(s: Seq<T>, n: int) -> Seq<T> {
    if n < s.len() {
        s.subrange(0, n)
    } else {
        s
    }
}

/// Humidity samples as bytes (each was read from one byte).
pub open spec fn narrowed(s: Seq<u16>) -> Seq<u8> {
    s.map_values(|v: u16| v as u8)
}

/// Temperature samples in hundredths of a degree Fahrenheit.
pub open spec fn fahrenheit(s: Seq<u16>) -> Seq<u32> {
    s.map_values(|v: u16| centi_fahrenheit(v) as u32)
}

/// Smallest of four lengths.
pub open spec fn min4(a: int, b: int, c: int, d: int) -> int {
    let ab = if a < b {
        a
    } else {
        b
    };
    let cd = if c < d {
        c
    } else {
        d
    };
    if ab < cd {
        ab
    } else {
        cd
    }
}

/// The four channels of a history log, aligned on the temperature channel.
#[derive(Debug, Clone)]
pub struct HistoryReadings {
    pub information: HistoryInformation,
    /// Hundredths of a degree Fahrenheit.
    pub temperature: Vec<u32>,
    /// Relative humidity in percent.
    pub humidity: Vec<u8>,
    /// CO2 level in ppm.
    pub co2: Vec<u16>,
    /// Tenths of a kilopascal.
    pub pressure: Vec<u16>,
}

/// The error a channel's stop stands for: a protocol error where it broke
/// the paging protocol, a transport error where a read failed.
pub open spec fn channel_error(c: ChannelPull) -> Option<SensorError> {
    if c.status == PullStatus::Failed {
        Some(SensorError::ProtocolError)
    } else if c.status == PullStatus::ReadFailed {
        Some(SensorError::BluetoothError)
    } else {
        None
    }
}

/// Why the channels pulled for a history log give none, looked at in the
/// order they are pulled: the temperature channel's own failure, then its
/// missing header (a protocol error), then the failures of humidity, CO2 and
/// pressure. `None` when they give a log.
pub open spec fn history_error(
    temperature: ChannelPull,
    humidity: ChannelPull,
    co2: ChannelPull,
    pressure: ChannelPull,
) -> Option<SensorError> {
    if channel_error(temperature) is Some {
        channel_error(temperature)
    } else if temperature.first_header is None {
        Some(SensorError::ProtocolError)
    } else if channel_error(humidity) is Some {
        channel_error(humidity)
    } else if channel_error(co2) is Some {
        channel_error(co2)
    } else {
        channel_error(pressure)
    }
}

/// Whether `r` holds the channels' samples: temperature converted to
/// hundredths of a degree Fahrenheit, humidity as bytes, and the three other
/// channels cut to the temperature channel's length.
pub open spec fn built_from(
    r: HistoryReadings,
    temperature: ChannelPull,
    humidity: ChannelPull,
    co2: ChannelPull,
    pressure: ChannelPull,
) -> bool {
    let n = temperature.samples@.len() as int;
    &&& r.temperature@ == fahrenheit(temperature.samples@)
    &&& r.humidity@ == truncated(narrowed(humidity.samples@), n)
    &&& r.co2@ == truncated(co2.samples@, n)
    &&& r.pressure@ == truncated(pressure.samples@, n)
}

impl HistoryReadings {
    /// Reconciles four independently pulled channels: humidity, CO2 and
    /// pressure are cut to the length of the temperature channel, never
    /// extended.
    pub fn assemble(
        information: HistoryInformation,
        temperature: Vec<u32>,
        humidity: Vec<u8>,
        co2: Vec<u16>,
        pressure: Vec<u16>,
    ) -> (r: HistoryReadings)
        ensures
            r.information == information,
            r.temperature@ == temperature@,
            r.humidity@ == truncated(humidity@, temperature@.len() as int),
            r.co2@ == truncated(co2@, temperature@.len() as int),
            r.pressure@ == truncated(pressure@, temperature@.len() as int),
    {
        let n = temperature.len();
        let mut humidity = humidity;
        let mut co2 = co2;
        let mut pressure = pressure;
        humidity.truncate(n);
        co2.truncate(n);
        pressure.truncate(n);
        HistoryReadings { information, temperature, humidity, co2, pressure }
    }

    /// Builds the log from the four finished channel pulls, the log having
    /// been read at `now`. Fails with the error that [`history_error`] gives.
    pub fn from_channels_at(
        temperature: &ChannelPull,
        humidity: &ChannelPull,
        co2: &ChannelPull,
        pressure: &ChannelPull,
        now: i64,
    ) -> (r: Result<HistoryReadings, SensorError>)
        ensures
            r is Ok <==> history_error(*temperature, *humidity, *co2, *pressure) is None,
            r matches Err(e) ==> history_error(*temperature, *humidity, *co2, *pressure) == Some(
                e,
            ),
            r matches Ok(h) ==> {
                &&& h.information == information_at(temperature.first_header.unwrap(), now)
                &&& built_from(h, *temperature, *humidity, *co2, *pressure)
            },
    {
        match Self::channel_failure(temperature) {
            Some(e) => {
                return Err(e);
            },
            None => {},
        }
        let header = match temperature.first_header {
            Some(h) => h,
            None => {
                return Err(SensorError::ProtocolError);
            },
        };
        match Self::channel_failure(humidity) {
            Some(e) => {
                return Err(e);
            },
            None => {},
        }
        match Self::channel_failure(co2) {
            Some(e) => {
                return Err(e);
            },
            None => {},
        }
        match Self::channel_failure(pressure) {
            Some(e) => {
                return Err(e);
            },
            None => {},
        }
        let information = HistoryInformation::from_header_at(header, now);
        let mut degrees: Vec<u32> = Vec::new();
        let mut i: usize = 0;
        while i < temperature.samples.len()
            invariant
                i <= temperature.samples@.len(),
                degrees@ == fahrenheit(temperature.samples@.subrange(0, i as int)),
            decreases temperature.samples@.len() - i,
        {
            degrees.push(convert_temperature(temperature.samples[i]));
            i = i + 1;
            assert(fahrenheit(temperature.samples@.subrange(0, i as int)) =~= fahrenheit(
                temperature.samples@.subrange(0, i - 1),
            ).push(centi_fahrenheit(temperature.samples@[i - 1]) as u32));
        }
        assert(temperature.samples@.subrange(0, i as int) =~= temperature.samples@);
        let mut bytes: Vec<u8> = Vec::new();
        let mut i: usize = 0;
        while i < humidity.samples.len()
            invariant
                i <= humidity.samples@.len(),
                bytes@ == narrowed(humidity.samples@.subrange(0, i as int)),
            decreases humidity.samples@.len() - i,
        {
            bytes.push(humidity.samples[i] as u8);
            i = i + 1;
            assert(narrowed(humidity.samples@.subrange(0, i as int)) =~= narrowed(
                humidity.samples@.subrange(0, i - 1),
            ).push(humidity.samples@[i - 1] as u8));
        }
        assert(humidity.samples@.subrange(0, i as int) =~= humidity.samples@);
        Ok(
            HistoryReadings::assemble(
                information,
                degrees,
                bytes,
                co2.samples.clone(),
                pressure.samples.clone(),
            ),
        )
    }

    fn channel_failure(c: &ChannelPull) -> (r: Option<SensorError>)
        ensures
            r == channel_error(*c),
    {
        match c.status {
            PullStatus::Failed => Some(SensorError::ProtocolError),
            PullStatus::ReadFailed => Some(SensorError::BluetoothError),
            _ => None,
        }
    }

    /// The log as one record per time step, pairing the channels position by
    /// position; as long as the shortest channel.
    pub fn as_records(&self) -> (r: Vec<DataRecord>)
        ensures
            r@.len() == min4(
                self.temperature@.len() as int,
                self.humidity@.len() as int,
                self.co2@.len() as int,
                self.pressure@.len() as int,
            ),
            forall|i: int|
                0 <= i < r@.len() ==> #[trigger] r@[i] == (DataRecord {
                    temperature: self.temperature@[i],
                    humidity: self.humidity@[i],
                    pressure: self.pressure@[i],
                    co2: self.co2@[i],
                }),
    {
        let mut n = self.temperature.len();
        if self.humidity.len() < n {
            n = self.humidity.len();
        }
        if self.co2.len() < n {
            n = self.co2.len();
        }
        if self.pressure.len() < n {
            n = self.pressure.len();
        }
        let mut out: Vec<DataRecord> = Vec::new();
        let mut i: usize = 0;
        while i < n
            invariant
                i <= n,
                n <= self.temperature@.len(),
                n <= self.humidity@.len(),
                n <= self.co2@.len(),
                n <= self.pressure@.len(),
                n == min4(
                    self.temperature@.len() as int,
                    self.humidity@.len() as int,
                    self.co2@.len() as int,
                    self.pressure@.len() as int,
                ),
                out@.len() == i,
                forall|j: int|
                    0 <= j < i ==> #[trigger] out@[j] == (DataRecord {
                        temperature: self.temperature@[j],
                        humidity: self.humidity@[j],
                        pressure: self.pressure@[j],
                        co2: self.co2@[j],
                    }),
            decreases n - i,
        {
            out.push(
                DataRecord {
                    temperature: self.temperature[i],
                    humidity: self.humidity[i],
                    pressure: self.pressure[i],
                    co2: self.co2[i],
                },
            );
            i = i + 1;
        }
        out
    }
}

/// After assembly the record view is as long as the shortest of the four
/// channels as pulled, which is the temperature channel's length whenever no
/// other channel came back shorter.
pub proof fn lemma_records_follow_temperature(t: Seq<u32>, h: Seq<u8>, c: Seq<u16>, p: Seq<u16>)
    ensures
        min4(
            t.len() as int,
            truncated(h, t.len() as int).len() as int,
            truncated(c, t.len() as int).len() as int,
            truncated(p, t.len() as int).len() as int,
        ) == min4(t.len() as int, h.len() as int, c.len() as int, p.len() as int),
        h.len() >= t.len() && c.len() >= t.len() && p.len() >= t.len() ==> min4(
            t.len() as int,
            truncated(h, t.len() as int).len() as int,
            truncated(c, t.len() as int).len() as int,
            truncated(p, t.len() as int).len() as int,
        ) == t.len(),
{
}

} // verus!
