use aranet4::error::SensorError;
use aranet4::history::header::HistoryHeader;
use aranet4::history::pull::{decode_page, ChannelPull, OnShortPacket, PullStatus};
use aranet4::history::readings::{HistoryInformation, HistoryReadings, HistoryRequest};
use aranet4::history::record::DataRecord;
use aranet4::protocol::LogParameter;

fn header(p: LogParameter, num: u8) -> HistoryHeader {
    HistoryHeader {
        parameter: p,
        interval: 60,
        total_measurements: 100,
        time_since_last_measurement: 30,
        first_measure_index: 1,
        num_measurements: num,
    }
}

fn page(p: LogParameter, num: u8, samples: &[u8]) -> Vec<u8> {
    let mut b = header(p, num).encode();
    b.extend_from_slice(samples);
    b
}

#[test]
fn history_header_serialize() {
    let x = HistoryHeader {
        parameter: LogParameter::Temperature,
        interval: 10,
        total_measurements: 20,
        time_since_last_measurement: 30,
        first_measure_index: 40,
        num_measurements: 50,
    };
    let bin = x.encode();
    assert_eq!(bin, &[1u8, 10, 0, 20, 0, 30, 0, 40, 0, 50])
}

#[test]
fn history_request_serialize() {
    let x = HistoryRequest {
        parameter: LogParameter::Temperature,
        first_index: 1,
    };
    let bin = x.encode();
    assert_eq!(&bin[1..], &[1u8, 1, 0])
}

#[test]
fn history_request_wire_form() {
    let x = HistoryRequest {
        parameter: LogParameter::Temperature,
        first_index: 1,
    };
    assert_eq!(x.encode(), vec![0x61, 0x01, 0x01, 0x00]);
    let y = HistoryRequest {
        parameter: LogParameter::Co2,
        first_index: 0x1234,
    };
    assert_eq!(y.encode(), vec![0x61, 0x04, 0x34, 0x12]);
    assert_eq!(
        ChannelPull::new(LogParameter::Humidity).request(),
        vec![0x61, 0x02, 0x01, 0x00]
    );
}

#[test]
fn history_header_decode() {
    let h = HistoryHeader::decode(&[1, 10, 0, 20, 0, 30, 0, 40, 0, 50]).unwrap();
    assert_eq!(
        h,
        HistoryHeader {
            parameter: LogParameter::Temperature,
            interval: 10,
            total_measurements: 20,
            time_since_last_measurement: 30,
            first_measure_index: 40,
            num_measurements: 50,
        }
    );
    assert_eq!(h.encode(), vec![1, 10, 0, 20, 0, 30, 0, 40, 0, 50]);
    let big = HistoryHeader::decode(&[4, 0x34, 0x12, 0xFF, 0xFF, 0, 1, 2, 0, 9, 77]).unwrap();
    assert_eq!(big.parameter, LogParameter::Co2);
    assert_eq!(big.interval, 0x1234);
    assert_eq!(big.total_measurements, 0xFFFF);
    assert_eq!(big.time_since_last_measurement, 0x0100);
    assert_eq!(big.first_measure_index, 2);
    assert_eq!(big.num_measurements, 9);
}

#[test]
fn history_header_decode_failures() {
    assert_eq!(HistoryHeader::decode(&[1, 10, 0, 20, 0, 30, 0, 40, 0]), None);
    assert_eq!(HistoryHeader::decode(&[0, 10, 0, 20, 0, 30, 0, 40, 0, 50]), None);
    assert_eq!(HistoryHeader::decode(&[5, 10, 0, 20, 0, 30, 0, 40, 0, 50]), None);
}

#[test]
fn header_round_trip() {
    for p in [
        LogParameter::Temperature,
        LogParameter::Humidity,
        LogParameter::Pressure,
        LogParameter::Co2,
    ] {
        let h = HistoryHeader {
            parameter: p,
            interval: 300,
            total_measurements: 65535,
            time_since_last_measurement: 7,
            first_measure_index: 256,
            num_measurements: 255,
        };
        assert_eq!(HistoryHeader::decode(&h.encode()), Some(h));
    }
}

#[test]
fn data_start_formula() {
    let h = header(LogParameter::Temperature, 10);
    assert_eq!(h.get_data_start(1_000_000), Some(1_000_000 - 30 - 600));
    assert_eq!(h.get_data_start(630), Some(0));
    assert_eq!(h.get_data_start(629), None);
    let info = HistoryInformation::from_header_at(h, 1_000_000);
    assert_eq!(info.interval, 60);
    assert_eq!(info.beginning, 1_000_000 - 630);
    let early = HistoryInformation::from_header_at(h, 100);
    assert_eq!(early.beginning, 100);
    let wide = HistoryHeader {
        interval: 65535,
        num_measurements: 255,
        time_since_last_measurement: 65535,
        ..h
    };
    assert_eq!(
        wide.get_data_start(i64::MAX),
        Some(i64::MAX - 65535 - 65535 * 255)
    );
    assert_eq!(wide.get_data_start(i64::MIN), None);
}

#[test]
fn information_falls_back_to_now() {
    let h = header(LogParameter::Temperature, 10);
    assert_eq!(
        HistoryInformation::from_header_at(h, 1_700_000_000),
        HistoryInformation {
            interval: 60,
            beginning: 1_700_000_000 - 630,
        }
    );
    assert_eq!(HistoryInformation::from_header_at(h, -5).beginning, -5);
}

#[test]
fn decode_page_widths() {
    let mut out = vec![];
    decode_page(
        LogParameter::Co2,
        &page(LogParameter::Co2, 2, &[0xA4, 0x01, 0x10, 0x00]),
        2,
        &mut out,
    );
    assert_eq!(out, vec![420, 16]);
    let mut out = vec![9];
    decode_page(
        LogParameter::Humidity,
        &page(LogParameter::Humidity, 3, &[40, 41, 42]),
        3,
        &mut out,
    );
    assert_eq!(out, vec![9, 40, 41, 42]);
}

#[test]
fn declared_count_larger_than_packet() {
    let mut out = vec![];
    // five declared, two and a half present
    decode_page(
        LogParameter::Temperature,
        &page(LogParameter::Temperature, 5, &[1, 0, 2, 0, 3]),
        5,
        &mut out,
    );
    assert_eq!(out, vec![1, 2]);
    let mut pull = ChannelPull::new(LogParameter::Humidity);
    let status = pull.on_packet(&page(LogParameter::Humidity, 200, &[50, 51]));
    assert_eq!(status, PullStatus::Pulling);
    assert_eq!(pull.samples, vec![50, 51]);
}

#[test]
fn declared_count_smaller_than_packet() {
    let mut pull = ChannelPull::new(LogParameter::Pressure);
    pull.on_packet(&page(LogParameter::Pressure, 1, &[0xF5, 0x03, 0xFF, 0xFF]));
    assert_eq!(pull.samples, vec![1013]);
}

#[test]
fn sentinel_ends_pull() {
    let mut pull = ChannelPull::new(LogParameter::Temperature);
    assert_eq!(
        pull.on_packet(&page(LogParameter::Temperature, 2, &[100, 0, 200, 0])),
        PullStatus::Pulling
    );
    assert_eq!(
        pull.on_packet(&page(LogParameter::Temperature, 0, &[7, 7, 7, 7])),
        PullStatus::Finished
    );
    assert_eq!(pull.samples, vec![100, 200]);
    assert!(!pull.is_pulling());
    // a stopped pull ignores further packets
    pull.on_packet(&page(LogParameter::Temperature, 1, &[1, 0]));
    assert_eq!(pull.samples, vec![100, 200]);
    assert_eq!(pull.first_header, Some(header(LogParameter::Temperature, 2)));
}

#[test]
fn sentinel_first_page_gives_nothing() {
    let mut pull = ChannelPull::new(LogParameter::Co2);
    assert_eq!(
        pull.on_packet(&page(LogParameter::Co2, 0, &[])),
        PullStatus::Finished
    );
    assert!(pull.samples.is_empty());
    assert_eq!(pull.first_header, None);
}

#[test]
fn short_packet_policies() {
    let short = vec![1u8, 2, 3];
    let mut t = ChannelPull::new(LogParameter::Temperature);
    assert_eq!(t.on_short_packet, OnShortPacket::Fail);
    assert_eq!(t.on_packet(&short), PullStatus::Failed);
    let mut p = ChannelPull::new(LogParameter::Pressure);
    assert_eq!(p.on_short_packet, OnShortPacket::StopCleanly);
    assert_eq!(p.on_packet(&short), PullStatus::Finished);
    assert!(p.samples.is_empty());
    let mut lenient = ChannelPull::with_policy(LogParameter::Temperature, OnShortPacket::StopCleanly);
    assert_eq!(lenient.on_packet(&short), PullStatus::Finished);
}

#[test]
fn undecodable_header_ends_pull() {
    let mut pull = ChannelPull::new(LogParameter::Temperature);
    let mut bad = page(LogParameter::Temperature, 1, &[5, 0]);
    bad[0] = 9;
    assert_eq!(pull.on_packet(&bad), PullStatus::Finished);
    assert!(pull.samples.is_empty());
}

#[test]
fn read_failure_stops_pull() {
    let mut pull = ChannelPull::new(LogParameter::Co2);
    pull.on_packet(&page(LogParameter::Co2, 1, &[5, 0]));
    pull.on_read_failed();
    assert_eq!(pull.status, PullStatus::ReadFailed);
    assert_eq!(pull.samples, vec![5]);
    let mut failed = ChannelPull::new(LogParameter::Temperature);
    failed.on_packet(&[]);
    failed.on_read_failed();
    assert_eq!(failed.status, PullStatus::Failed);
}

fn finished(p: LogParameter, pages: &[Vec<u8>]) -> ChannelPull {
    let mut pull = ChannelPull::new(p);
    for b in pages {
        pull.on_packet(b);
    }
    pull.on_packet(&page(p, 0, &[]));
    pull
}

#[test]
fn channels_assemble_and_truncate() {
    let t = finished(
        LogParameter::Temperature,
        &[page(LogParameter::Temperature, 2, &[1, 0, 2, 0]), page(LogParameter::Temperature, 1, &[3, 0])],
    );
    let h = finished(LogParameter::Humidity, &[page(LogParameter::Humidity, 4, &[40, 41, 42, 43])]);
    let c = finished(LogParameter::Co2, &[page(LogParameter::Co2, 2, &[0xA4, 1, 0xA5, 1])]);
    let p = finished(LogParameter::Pressure, &[page(LogParameter::Pressure, 3, &[1, 0, 2, 0, 3, 0])]);
    let r = HistoryReadings::from_channels_at(&t, &h, &c, &p, 1_000_000).unwrap();
    assert_eq!(r.information.interval, 60);
    assert_eq!(r.information.beginning, 1_000_000 - 30 - 60 * 2);
    assert_eq!(r.temperature, vec![3209, 3218, 3227]);
    assert_eq!(r.humidity, vec![40, 41, 42]);
    assert_eq!(r.co2, vec![420, 421]);
    assert_eq!(r.pressure, vec![1, 2, 3]);
    let recs = r.as_records();
    assert_eq!(recs.len(), 2);
    assert_eq!(
        recs[1],
        DataRecord {
            temperature: 3218,
            humidity: 41,
            pressure: 2,
            co2: 421
        }
    );
}

#[test]
fn channel_errors() {
    let ok = |p| finished(p, &[]);
    let mut bad_t = ChannelPull::new(LogParameter::Temperature);
    bad_t.on_packet(&[1, 2]);
    let h = ok(LogParameter::Humidity);
    let c = ok(LogParameter::Co2);
    let p = ok(LogParameter::Pressure);
    assert_eq!(
        HistoryReadings::from_channels_at(&bad_t, &h, &c, &p, 0).unwrap_err(),
        SensorError::ProtocolError
    );
    // no header ever seen on the temperature channel
    let empty_t = ok(LogParameter::Temperature);
    assert_eq!(
        HistoryReadings::from_channels_at(&empty_t, &h, &c, &p, 0).unwrap_err(),
        SensorError::ProtocolError
    );
    let t = finished(LogParameter::Temperature, &[page(LogParameter::Temperature, 1, &[1, 0])]);
    // a failed read on a later channel surfaces as a transport error
    let mut lost = ChannelPull::new(LogParameter::Co2);
    lost.on_read_failed();
    assert_eq!(
        HistoryReadings::from_channels_at(&t, &h, &lost, &p, 0).unwrap_err(),
        SensorError::BluetoothError
    );
    let mut lost_t = ChannelPull::new(LogParameter::Temperature);
    lost_t.on_packet(&page(LogParameter::Temperature, 1, &[1, 0]));
    lost_t.on_read_failed();
    assert_eq!(
        HistoryReadings::from_channels_at(&lost_t, &h, &c, &p, 0).unwrap_err(),
        SensorError::BluetoothError
    );
    let r = HistoryReadings::from_channels_at(&t, &h, &c, &p, 0).unwrap();
    assert_eq!(r.temperature, vec![3209]);
    assert_eq!(r.information.interval, 60);
    let r = HistoryReadings::from_channels_at(&t, &h, &c, &p, 0).unwrap();
    assert_eq!(r.information.beginning, 0);
    assert!(r.humidity.is_empty());
}

#[test]
fn records_length_follows_temperature() {
    let info = HistoryInformation {
        interval: 60,
        beginning: 0,
    };
    for (nt, nh, nc, np) in [(0, 0, 0, 0), (3, 5, 4, 3), (0, 2, 2, 2), (4, 9, 9, 9)] {
        let r = HistoryReadings::assemble(info, vec![7; nt], vec![1; nh], vec![2; nc], vec![3; np]);
        assert_eq!(r.as_records().len(), nt);
        assert_eq!(r.humidity.len(), nt);
        assert_eq!(r.co2.len(), nt);
        assert_eq!(r.pressure.len(), nt);
    }
    // a shorter non-temperature channel is kept short
    let r = HistoryReadings::assemble(info, vec![7; 3], vec![1; 1], vec![2; 5], vec![3; 5]);
    assert_eq!(r.humidity.len(), 1);
    assert_eq!(r.co2.len(), 3);
    assert_eq!(r.as_records().len(), 1);
}

#[test]
fn take_packets_stops_at_sentinel() {
    let packets = vec![
        page(LogParameter::Co2, 2, &[1, 0, 2, 0]),
        page(LogParameter::Co2, 1, &[3, 0]),
        page(LogParameter::Co2, 0, &[]),
        page(LogParameter::Co2, 1, &[9, 0]),
    ];
    let mut pull = ChannelPull::new(LogParameter::Co2);
    assert_eq!(pull.take_packets(&packets), 3);
    assert_eq!(pull.status, PullStatus::Finished);
    assert_eq!(pull.samples, vec![1, 2, 3]);
    assert_eq!(pull.first_header, Some(header(LogParameter::Co2, 2)));
}

#[test]
fn take_packets_short_packet_by_channel() {
    let packets = vec![
        page(LogParameter::Temperature, 1, &[0x90, 1]),
        vec![1, 2, 3],
        page(LogParameter::Temperature, 1, &[0x91, 1]),
    ];
    let mut t = ChannelPull::new(LogParameter::Temperature);
    assert_eq!(t.take_packets(&packets), 2);
    assert_eq!(t.status, PullStatus::Failed);
    let mut p = ChannelPull::new(LogParameter::Pressure);
    assert_eq!(p.take_packets(&packets), 2);
    assert_eq!(p.status, PullStatus::Finished);
    assert_eq!(p.samples, vec![400]);
}

#[test]
fn take_packets_runs_out() {
    let packets = vec![page(LogParameter::Humidity, 2, &[30, 31])];
    let mut pull = ChannelPull::new(LogParameter::Humidity);
    assert_eq!(pull.take_packets(&packets), 1);
    assert!(pull.is_pulling());
    assert_eq!(pull.samples, vec![30, 31]);
}
