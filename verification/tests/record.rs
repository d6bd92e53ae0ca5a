use mirakc::config::TimeshiftConfig;
use mirakc::epg::EpgProgram;
use mirakc::error::MirakcError;
use mirakc::models::{EventQuad, ServiceTriple, TimeshiftRecordId};
use mirakc::mpeg_ts_stream::MpegTsStreamRange;
use mirakc::time::JstTime;
use mirakc::timeshift::record::{TimeshiftPoint, TimeshiftRecord};
use mirakc::timeshift::source::{TimeshiftStreamSource, CHUNK_SIZE};

fn config() -> TimeshiftConfig {
    TimeshiftConfig {
        service_triple: ServiceTriple { nid: 1, tsid: 2, sid: 3 },
        file: "/ring".to_string(),
        chunk_size: 100,
        num_chunks: 10,
        num_reserves: 1,
        priority: 0,
    }
}

fn record(start: u64, end: u64, recording: bool) -> TimeshiftRecord {
    TimeshiftRecord {
        id: TimeshiftRecordId::from(77),
        program: EpgProgram::new(EventQuad::new(1, 2, 3, 4)),
        start: TimeshiftPoint { timestamp: JstTime::new(77, 0), pos: start },
        end: TimeshiftPoint { timestamp: JstTime::new(99, 5), pos: end },
        recording,
    }
}

#[test]
fn test_record_size_around_the_ring() {
    assert_eq!(record(100, 350, false).get_size(1000), 250);
    assert_eq!(record(900, 150, false).get_size(1000), 250);
    assert_eq!(record(900, 900, false).get_size(1000), 0);
    assert_eq!(record(999, 998, false).get_size(1000), 999);
}

#[test]
fn test_record_inside_of_the_ring() {
    assert!(record(0, 0, false).is_inside(1000));
    assert!(record(1000, 0, false).is_inside(1000));
    assert!(!record(1001, 0, false).is_inside(1000));
    assert!(record(1001, 2000, false).is_inside(1000));
}

#[test]
fn test_record_stream_from_the_beginning() {
    let source = record(900, 150, false)
        .create_record_stream_source("r".to_string(), &config(), None)
        .unwrap();
    assert_eq!(source.recorder_name, "r");
    assert_eq!(source.file, "/ring");
    assert_eq!(source.id, TimeshiftRecordId::from(77));
    assert_eq!(source.position(), 900);
    assert_eq!(source.range, MpegTsStreamRange { first: 0, last: 249, size: Some(250) });
    assert_eq!(source.limit(), 250);
    assert_eq!((source.position() + source.limit()) % 1000, 150);
}

#[test]
fn test_record_stream_from_a_position() {
    let source = record(900, 150, true)
        .create_record_stream_source("r".to_string(), &config(), Some(130))
        .unwrap();
    assert_eq!(source.position(), 30);
    assert_eq!(source.range, MpegTsStreamRange { first: 130, last: 249, size: None });
    assert_eq!(source.limit(), 120);
    assert_eq!((source.position() + source.limit()) % 1000, 150);
}

#[test]
fn test_record_stream_out_of_range() {
    let result = record(900, 150, false).create_record_stream_source(
        "r".to_string(),
        &config(),
        Some(250),
    );
    assert_eq!(result.err(), Some(MirakcError::OutOfRange));
    let result = record(5, 5, true).create_record_stream_source("r".to_string(), &config(), None);
    assert_eq!(result.err(), Some(MirakcError::OutOfRange));
}

#[test]
fn test_streamable_records() {
    assert!(record(900, 150, true).is_streamable(&config(), None));
    assert!(record(900, 150, true).is_streamable(&config(), Some(u64::MAX - 900)));
    assert!(!record(900, 150, true).is_streamable(&config(), Some(u64::MAX - 899)));
    assert!(!record(1001, 150, true).is_streamable(&config(), None));
    let mut no_chunks = config();
    no_chunks.num_chunks = 0;
    no_chunks.num_reserves = 0;
    assert!(record(0, 0, true).is_streamable(&no_chunks, None));
    assert!(!record(0, 0, true).is_streamable(&no_chunks, Some(0)));
    let mut no_bytes = config();
    no_bytes.chunk_size = 0;
    assert!(!record(0, 0, true).is_streamable(&no_bytes, None));
}

#[test]
fn test_record_model() {
    let model = record(900, 150, true).get_model(&config());
    assert_eq!(model.id, TimeshiftRecordId::from(77));
    assert_eq!(model.program.quad, EventQuad::new(1, 2, 3, 4));
    assert_eq!(model.start_time, JstTime::new(77, 0));
    assert_eq!(model.end_time, JstTime::new(99, 5));
    assert_eq!(model.size, 250);
    assert!(model.recording);
}

#[test]
fn test_record_ranges() {
    let range = MpegTsStreamRange::bound(10, 20).unwrap();
    assert_eq!((range.first, range.last, range.size), (10, 19, Some(20)));
    assert_eq!(range.bytes(), 10);
    let range = MpegTsStreamRange::unbound(0, 20).unwrap();
    assert_eq!((range.first, range.last, range.size), (0, 19, None));
    assert_eq!(range.bytes(), 20);
    assert_eq!(MpegTsStreamRange::bound(20, 20).err(), Some(MirakcError::OutOfRange));
    assert_eq!(MpegTsStreamRange::unbound(0, 0).err(), Some(MirakcError::OutOfRange));
}

#[test]
fn test_record_stream_id() {
    let mut r = record(900, 150, false);
    r.id = TimeshiftRecordId::from(-1609426800);
    let source = r.create_record_stream_source("bs1".to_string(), &config(), None).unwrap();
    let stream = source.into_stream("stream");
    assert_eq!(stream.id, "timeshift(bs1)/record#-1609426800");
    assert_eq!(stream.stream, "stream");
    assert_eq!(stream.range, Some(MpegTsStreamRange { first: 0, last: 249, size: Some(250) }));
    assert!(stream.is_decoded());
}

#[test]
fn test_live_stream_id() {
    let source = TimeshiftStreamSource {
        name: "bs1".to_string(),
        file: "/ring".to_string(),
        point: TimeshiftPoint { timestamp: JstTime::new(1, 2), pos: 300 },
    };
    assert_eq!(source.position(), 300);
    let stream = source.into_stream(5);
    assert_eq!(stream.id, "timeshift(bs1)");
    assert_eq!(stream.stream, 5);
    assert_eq!(stream.range, None);
    assert!(stream.is_decoded());
    assert_eq!(CHUNK_SIZE, 4096 * 8);
}

#[test]
fn test_config_of_a_ring() {
    assert!(config().is_valid());
    assert_eq!(config().max_chunks(), 9);
    assert_eq!(config().max_file_size(), 1000);
    let mut reserve = config();
    reserve.num_reserves = 11;
    assert!(!reserve.is_valid());
    let mut huge = config();
    huge.chunk_size = usize::MAX;
    huge.num_chunks = usize::MAX;
    assert!(!huge.is_valid());
}

#[test]
fn test_instants_are_ordered() {
    let early = JstTime::new(10, 999_999_999);
    let late = JstTime::new(11, 0);
    assert!(late.is_after(early));
    assert!(!early.is_after(late));
    assert!(!early.is_after(early));
    assert!(JstTime::new(11, 1).is_after(late));
    assert_eq!(late.timestamp(), 11);
}
