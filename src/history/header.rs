use vstd::prelude::*;

use crate::protocol::{le16_at, parameter_of, tag_of, LogParameter};

verus! {

/// Size of a history page header in bytes.
pub const HISTORY_HEADER_SIZE: usize = 10;

/// Metadata at the start of every history page.
#[derive(Debug, Clone, Copy, PartialEq, Eq, Structural)]
pub struct HistoryHeader {
    pub parameter: LogParameter,
    /// Seconds between two measurements.
    pub interval: u16,
    pub total_measurements: u16,
    /// Seconds since the newest measurement was taken.
    pub time_since_last_measurement: u16,
    pub first_measure_index: u16,
    /// Samples on this page; zero marks the end of the channel.
    pub num_measurements: u8,
}

/// The header that the first ten bytes of `b` describe, if they describe one:
/// a known parameter tag, then four little-endian `u16` and one `u8`.
pub open spec fn header_of(b: Seq<u8>) -> Option<HistoryHeader> {
    if b.len() < 10 {
        None
    } else {
        match parameter_of(b[0]) {
            Some(p) => Some(
                HistoryHeader {
                    parameter: p,
                    interval: le16_at(b, 1) as u16,
                    total_measurements: le16_at(b, 3) as u16,
                    time_since_last_measurement: le16_at(b, 5) as u16,
                    first_measure_index: le16_at(b, 7) as u16,
                    num_measurements: b[9],
                },
            ),
            None => None,
        }
    }
}

/// The ten wire bytes of a header.
pub open spec fn header_bytes(h: HistoryHeader) -> Seq<u8> {
    seq![
        tag_of(h.parameter),
        (h.interval % 256) as u8,
        (h.interval / 256) as u8,
        (h.total_measurements % 256) as u8,
        (h.total_measurements / 256) as u8,
        (h.time_since_last_measurement % 256) as u8,
        (h.time_since_last_measurement / 256) as u8,
        (h.first_measure_index % 256) as u8,
        (h.first_measure_index / 256) as u8,
        h.num_measurements,
    ]
}

/// Seconds covered by the first page: `interval × num_measurements`.
pub open spec fn page_span(h: HistoryHeader) -> int {
    h.interval as int * h.num_measurements as int
}

/// Unix time of the first logged sample, taking `now` as the time of reading:
/// `now − time_since_last_measurement − interval × num_measurements`; `None`
/// where that lies before the epoch.
pub open spec fn data_start(h: HistoryHeader, now: i64) -> Option<i64> {
    let start = now as int - h.time_since_last_measurement as int - page_span(h);
    if start < 0 {
        None
    } else {
        Some(start as i64)
    }
}

pub(crate) fn push_u16_le(out: &mut Vec<u8>, v: u16)
    ensures
        final(out)@ == old(out)@.push((v % 256) as u8).push((v / 256) as u8),
{
    out.push((v % 256) as u8);
    out.push((v / 256) as u8);
}

impl HistoryHeader {
    /// Decodes a header from the start of `data`; `None` when fewer than ten
    /// bytes are given or the first byte names no parameter.
    pub fn decode(data: &[u8]) -> (r: Option<HistoryHeader>)
        ensures
            r == header_of(data@),
    {
        if data.len() < HISTORY_HEADER_SIZE {
            return None;
        }
        match LogParameter::from_tag(data[0]) {
            Some(parameter) => Some(
                HistoryHeader {
                    parameter,
                    interval: crate::protocol::read_u16_le(data, 1),
                    total_measurements: crate::protocol::read_u16_le(data, 3),
                    time_since_last_measurement: crate::protocol::read_u16_le(data, 5),
                    first_measure_index: crate::protocol::read_u16_le(data, 7),
                    num_measurements: data[9],
                },
            ),
            None => None,
        }
    }

    /// The ten wire bytes of this header.
    pub fn encode(&self) -> (r: Vec<u8>)
        ensures
            r@ == header_bytes(*self),
    {
        let mut out: Vec<u8> = Vec::new();
        out.push(self.parameter.tag());
        push_u16_le(&mut out, self.interval);
        push_u16_le(&mut out, self.total_measurements);
        push_u16_le(&mut out, self.time_since_last_measurement);
        push_u16_le(&mut out, self.first_measure_index);
        out.push(self.num_measurements);
        assert(out@ =~= header_bytes(*self));
        out
    }

    /// Unix time of the first logged sample when the log was read at `now`
    /// (see [`data_start`]).
    pub fn get_data_start(&self, now: i64) -> (r: Option<i64>)
        ensures
            r == data_start(*self, now),
    {
        let interval = self.interval as i64;
        let count = self.num_measurements as i64;
        assert(0 <= interval * count <= 65535 * 255) by (nonlinear_arith)
            requires
                0 <= interval <= 65535,
                0 <= count <= 255,
        ;
        let span: i64 = self.time_since_last_measurement as i64 + interval * count;
        if now < span {
            None
        } else {
            Some(now - span)
        }
    }
}

/// Encoding a header and decoding the bytes gives the header back, and a
/// decoded header encodes to the ten bytes it was read from.
pub proof fn lemma_header_round_trip(h: HistoryHeader, b: Seq<u8>)
    ensures
        header_of(header_bytes(h)) == Some(h),
        header_of(b) matches Some(g) ==> header_bytes(g) == b.subrange(0, 10),
{
    crate::protocol::lemma_tag_round_trip(h.parameter, 0);
    let e = header_bytes(h);
    assert(le16_at(e, 1) == h.interval);
    assert(le16_at(e, 3) == h.total_measurements);
    assert(le16_at(e, 5) == h.time_since_last_measurement);
    assert(le16_at(e, 7) == h.first_measure_index);
    if let Some(g) = header_of(b) {
        crate::protocol::lemma_tag_round_trip(g.parameter, b[0]);
        assert(header_bytes(g) =~= b.subrange(0, 10));
    }
}

} // verus!
