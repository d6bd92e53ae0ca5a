use chrono::TimeZone;
use indexmap::IndexMap;
use mirakc::config::TimeshiftConfig;
use mirakc::epg::{EitEvent, EpgChannel, EpgProgram, EpgService};
use mirakc::error::MirakcError;
use mirakc::models::{ChannelType, EventQuad, ServiceTriple, TimeshiftRecordId};
use mirakc::time::JstTime;
use mirakc::timeshift::record::{TimeshiftPoint, TimeshiftRecord};
use mirakc::timeshift::recorder::{TimeshiftRecorder, TimeshiftRecorderSession};

fn jst(hour: u32, min: u32, sec: u32) -> JstTime {
    let time = chrono::FixedOffset::east_opt(9 * 3600)
        .unwrap()
        .with_ymd_and_hms(2021, 1, 1, hour, min, sec)
        .unwrap();
    JstTime::new(time.timestamp(), time.timestamp_subsec_nanos())
}

fn create_config() -> TimeshiftConfig {
    TimeshiftConfig {
        service_triple: ServiceTriple::from((1, 2, 3)),
        file: "/path/to/file".to_string(),
        chunk_size: 154009600,
        num_chunks: 5,
        num_reserves: 1,
        priority: 128,
    }
}

fn create_epg_service() -> EpgService {
    EpgService {
        nid: 1,
        tsid: 2,
        sid: 3,
        service_type: 1,
        logo_id: 0,
        remote_control_key_id: 0,
        name: "Service".to_string(),
        channel: EpgChannel {
            name: "ch".to_string(),
            channel_type: ChannelType::GR,
            channel: "ch".to_string(),
            extra_args: "".to_string(),
            services: vec![],
            excluded_services: vec![],
        },
    }
}

fn create_recorder() -> TimeshiftRecorder<()> {
    TimeshiftRecorder::new("recorder".to_string(), create_config(), create_epg_service())
}

fn create_event(eid: u16, name: &str) -> EitEvent {
    EitEvent {
        event_id: eid,
        start_at: Some(jst(0, 0, 0)),
        duration: Some(60000),
        scrambled: false,
        name: Some(name.to_string()),
        description: None,
        extended: None,
        genres: None,
        video: None,
        audios: None,
        series: None,
        event_group: None,
    }
}

fn point(min: u32, chunk: u64) -> TimeshiftPoint {
    TimeshiftPoint { timestamp: jst(0, min, 0), pos: chunk * 154009600 }
}

#[test]
fn test_timeshift_record_purge_expired_records() {
    let mut records = IndexMap::new();
    records.insert(
        0,
        TimeshiftRecord {
            id: 0.into(),
            program: EpgProgram::new((0, 0, 0, 1).into()),
            start: TimeshiftPoint { timestamp: jst(0, 0, 0), pos: 0 },
            end: TimeshiftPoint { timestamp: jst(0, 0, 0), pos: 0 },
            recording: false,
        },
    );
    let mut recorder: TimeshiftRecorder<()> = TimeshiftRecorder {
        name: "record".to_string(),
        config: create_config(),
        service: create_epg_service(),
        records,
        points: vec![TimeshiftPoint { timestamp: jst(0, 1, 0), pos: 0 }],
        session: TimeshiftRecorderSession::Inactive,
    };
    recorder.purge_expired_records();
    assert!(recorder.records.is_empty());

    let mut records = IndexMap::new();
    records.insert(
        0,
        TimeshiftRecord {
            id: 0.into(),
            program: EpgProgram::new((0, 0, 0, 1).into()),
            start: TimeshiftPoint { timestamp: jst(0, 0, 0), pos: 0 },
            end: TimeshiftPoint { timestamp: jst(0, 0, 0), pos: 0 },
            recording: false,
        },
    );
    records.insert(
        1,
        TimeshiftRecord {
            id: 1.into(),
            program: EpgProgram::new((0, 0, 0, 2).into()),
            start: TimeshiftPoint { timestamp: jst(0, 0, 0), pos: 0 },
            end: TimeshiftPoint { timestamp: jst(0, 1, 0), pos: 0 },
            recording: false,
        },
    );
    records.insert(
        2,
        TimeshiftRecord {
            id: 2.into(),
            program: EpgProgram::new((0, 0, 0, 3).into()),
            start: TimeshiftPoint { timestamp: jst(0, 0, 0), pos: 0 },
            end: TimeshiftPoint { timestamp: jst(0, 2, 0), pos: 0 },
            recording: false,
        },
    );
    let mut recorder: TimeshiftRecorder<()> = TimeshiftRecorder {
        name: "recorder".to_string(),
        config: create_config(),
        service: create_epg_service(),
        records,
        points: vec![TimeshiftPoint { timestamp: jst(0, 1, 0), pos: 0 }],
        session: TimeshiftRecorderSession::Inactive,
    };
    recorder.purge_expired_records();
    assert_eq!(recorder.records.len(), 1);
    assert_eq!(recorder.records[0].program.quad, (0, 0, 0, 3).into());
}

#[test]
fn test_new_recorder_is_empty_and_inactive() {
    let recorder = create_recorder();
    assert!(recorder.records.is_empty());
    assert!(recorder.points.is_empty());
    assert!(recorder.is_inactive());
    assert!(!recorder.is_active());
    let now = jst(12, 0, 0);
    let model = recorder.get_model(now);
    assert_eq!(model.name, "recorder");
    assert_eq!(model.service.name, "Service");
    assert_eq!(model.start_time, now);
    assert_eq!(model.end_time, now);
    assert!(!model.recording);
}

#[test]
fn test_active_recorder_reports_recording() {
    let mut recorder = create_recorder();
    recorder.session = TimeshiftRecorderSession::Activating;
    assert!(!recorder.is_active());
    assert!(!recorder.is_inactive());
    recorder.session = TimeshiftRecorderSession::Active(());
    assert!(recorder.is_active());
    assert!(recorder.get_model(jst(0, 0, 0)).recording);
}

#[test]
fn test_chunks_fill_the_ring_and_then_push_the_oldest_out() {
    let mut recorder = create_recorder();
    for i in 0..4u32 {
        recorder.handle_chunk(point(i, i as u64));
        assert_eq!(recorder.points.len(), i as usize + 1);
    }
    recorder.handle_chunk(point(4, 4));
    assert_eq!(recorder.points.len(), 4);
    assert_eq!(recorder.points[0], point(1, 1));
    assert_eq!(recorder.points[3], point(4, 4));
    let model = recorder.get_model(jst(12, 0, 0));
    assert_eq!(model.start_time, jst(0, 1, 0));
    assert_eq!(model.end_time, jst(0, 4, 0));
}

#[test]
fn test_full_ring_drops_expired_records() {
    let mut recorder = create_recorder();
    recorder.handle_event_start(EventQuad::new(1, 2, 3, 1), create_event(1, "first"), point(0, 0));
    recorder.handle_event_end(EventQuad::new(1, 2, 3, 1), create_event(1, "first"), point(1, 1));
    recorder.handle_event_start(EventQuad::new(1, 2, 3, 2), create_event(2, "second"), point(2, 1));
    recorder.handle_event_update(EventQuad::new(1, 2, 3, 2), create_event(2, "second"), point(3, 3));
    for i in 0..4u32 {
        recorder.handle_chunk(point(i, i as u64));
    }
    assert_eq!(recorder.records.len(), 2);
    recorder.handle_chunk(point(4, 4));
    assert_eq!(recorder.records.len(), 1);
    assert_eq!(recorder.records[0].program.name, Some("second".to_string()));
}

#[test]
fn test_purge_stops_at_the_first_record_that_is_kept() {
    let mut recorder = create_recorder();
    recorder.handle_event_start(EventQuad::new(1, 2, 3, 1), create_event(1, "late"), point(9, 0));
    recorder.handle_event_start(EventQuad::new(1, 2, 3, 2), create_event(2, "early"), point(0, 0));
    recorder.points.push(point(5, 0));
    recorder.purge_expired_records();
    assert_eq!(recorder.records.len(), 2);
}

#[test]
fn test_invalidate_first_chunk_keeps_the_records() {
    let mut recorder = create_recorder();
    recorder.handle_event_start(EventQuad::new(1, 2, 3, 1), create_event(1, "a"), point(0, 0));
    for i in 0..4u32 {
        recorder.append_point(point(i, i as u64));
    }
    recorder.invalidate_first_chunk();
    assert_eq!(recorder.points.len(), 3);
    assert_eq!(recorder.points[0], point(1, 1));
    assert_eq!(recorder.records.len(), 1);
}

#[test]
fn test_maintain_leaves_a_ring_with_room_alone() {
    let mut recorder = create_recorder();
    recorder.append_point(point(5, 0));
    recorder.handle_event_start(EventQuad::new(1, 2, 3, 1), create_event(1, "a"), point(0, 0));
    recorder.maintain();
    assert_eq!(recorder.points.len(), 1);
    assert_eq!(recorder.records.len(), 1);
}

#[test]
fn test_started_record_is_found_by_its_second() {
    let mut recorder = create_recorder();
    recorder.handle_event_start(EventQuad::new(1, 2, 3, 4), create_event(4, "news"), point(7, 2));
    let id = jst(0, 7, 0).secs;
    let record = &recorder.records[&id];
    assert_eq!(record.id, TimeshiftRecordId::from(id));
    assert_eq!(record.start, point(7, 2));
    assert_eq!(record.end, point(7, 2));
    assert!(record.recording);
    assert_eq!(record.program.quad, EventQuad::new(1, 2, 3, 4));
    assert_eq!(record.program.name, Some("news".to_string()));
    assert_eq!(record.program.duration, Some(60000));
}

#[test]
fn test_record_of_the_same_second_is_replaced_in_place() {
    let mut recorder = create_recorder();
    recorder.handle_event_start(EventQuad::new(1, 2, 3, 1), create_event(1, "a"), point(0, 0));
    recorder.handle_event_start(EventQuad::new(1, 2, 3, 2), create_event(2, "b"), point(1, 1));
    recorder.handle_event_start(EventQuad::new(1, 2, 3, 3), create_event(3, "c"), point(0, 0));
    assert_eq!(recorder.records.len(), 2);
    assert_eq!(recorder.records[0].program.name, Some("c".to_string()));
    assert_eq!(recorder.records[1].program.name, Some("b".to_string()));
}

#[test]
fn test_update_and_end_change_the_newest_record_alone() {
    let mut recorder = create_recorder();
    recorder.handle_event_start(EventQuad::new(1, 2, 3, 1), create_event(1, "a"), point(0, 0));
    recorder.handle_event_start(EventQuad::new(1, 2, 3, 2), create_event(2, "b"), point(1, 1));
    recorder.handle_event_update(EventQuad::new(1, 2, 3, 2), create_event(2, "b2"), point(2, 2));
    assert_eq!(recorder.records[0].end, point(0, 0));
    assert_eq!(recorder.records[0].program.name, Some("a".to_string()));
    assert_eq!(recorder.records[1].end, point(2, 2));
    assert_eq!(recorder.records[1].program.name, Some("b2".to_string()));
    assert!(recorder.records[1].recording);
    recorder.handle_event_end(EventQuad::new(1, 2, 3, 2), create_event(2, "b3"), point(3, 3));
    assert!(recorder.records[0].recording);
    assert!(!recorder.records[1].recording);
    assert_eq!(recorder.records[1].start, point(1, 1));
    assert_eq!(recorder.records[1].end, point(3, 3));
    recorder.handle_event_update(EventQuad::new(1, 2, 3, 2), create_event(2, "b4"), point(4, 4));
    assert!(!recorder.records[1].recording);
}

#[test]
fn test_update_without_records_changes_nothing() {
    let mut recorder = create_recorder();
    recorder.handle_event_update(EventQuad::new(1, 2, 3, 1), create_event(1, "a"), point(0, 0));
    recorder.handle_event_end(EventQuad::new(1, 2, 3, 1), create_event(1, "a"), point(0, 0));
    assert!(recorder.records.is_empty());
}

#[test]
fn test_start_and_stop_of_recording_keep_the_recorder() {
    let mut recorder = create_recorder();
    recorder.handle_chunk(point(0, 0));
    recorder.handle_event_start(EventQuad::new(1, 2, 3, 1), create_event(1, "a"), point(0, 0));
    recorder.start_recording();
    recorder.stop_recording(true);
    assert_eq!(recorder.points.len(), 1);
    assert_eq!(recorder.records.len(), 1);
}

#[test]
fn test_live_stream_needs_two_chunks() {
    let mut recorder = create_recorder();
    recorder.handle_chunk(point(0, 0));
    assert_eq!(
        recorder.create_live_stream_source(None).err(),
        Some(MirakcError::RecordNotFound)
    );
    recorder.handle_chunk(point(1, 1));
    let source = recorder.create_live_stream_source(None).unwrap();
    assert_eq!(source.name, "recorder");
    assert_eq!(source.file, "/path/to/file");
    assert_eq!(source.point, point(0, 0));
}

#[test]
fn test_live_stream_starts_at_a_record() {
    let mut recorder = create_recorder();
    recorder.handle_chunk(point(0, 0));
    recorder.handle_event_start(EventQuad::new(1, 2, 3, 1), create_event(1, "a"), point(1, 1));
    recorder.handle_chunk(point(1, 1));
    let id = TimeshiftRecordId::from(jst(0, 1, 0).secs);
    assert_eq!(recorder.create_live_stream_source(Some(id)).unwrap().position(), 154009600);
    assert_eq!(
        recorder.create_live_stream_source(Some(TimeshiftRecordId::from(0))).err(),
        Some(MirakcError::ProgramNotFound)
    );
}

#[test]
fn test_record_stream_of_unknown_record_is_refused() {
    let recorder = create_recorder();
    assert_eq!(
        recorder.create_record_stream_source(TimeshiftRecordId::from(0), None).err(),
        Some(MirakcError::ProgramNotFound)
    );
}

#[test]
fn test_record_models_are_in_order() {
    let mut recorder = create_recorder();
    recorder.handle_event_start(EventQuad::new(1, 2, 3, 1), create_event(1, "a"), point(0, 0));
    recorder.handle_event_end(EventQuad::new(1, 2, 3, 1), create_event(1, "a"), point(1, 4));
    recorder.handle_event_start(EventQuad::new(1, 2, 3, 2), create_event(2, "b"), point(1, 4));
    recorder.handle_event_update(EventQuad::new(1, 2, 3, 2), create_event(2, "b"), point(2, 1));
    assert!(recorder.has_sized_records());
    let models = recorder.get_record_models();
    assert_eq!(models.len(), 2);
    assert_eq!(models[0].program.name, Some("a".to_string()));
    assert_eq!(models[0].size, 4 * 154009600);
    assert!(!models[0].recording);
    assert_eq!(models[1].program.name, Some("b".to_string()));
    assert_eq!(models[1].size, 2 * 154009600);
    assert_eq!(models[1].start_time, jst(0, 1, 0));
    assert_eq!(models[1].end_time, jst(0, 2, 0));
    assert!(models[1].recording);
}

#[test]
fn test_record_that_starts_outside_of_the_ring_has_no_size() {
    let mut recorder = create_recorder();
    recorder.handle_event_start(EventQuad::new(1, 2, 3, 1), create_event(1, "a"), point(0, 6));
    assert!(recorder.has_sized_records());
    recorder.handle_event_update(EventQuad::new(1, 2, 3, 1), create_event(1, "a"), point(1, 1));
    assert!(!recorder.has_sized_records());
}
