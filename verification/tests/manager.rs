use mirakc::config::{Config, FiltersConfig, RecorderConfig, TimeshiftConfig};
use mirakc::epg::{EitEvent, EpgChannel, EpgService, EpgServices};
use mirakc::error::MirakcError;
use mirakc::models::{ChannelType, ServiceTriple, TimeshiftRecordId};
use mirakc::time::JstTime;
use mirakc::timeshift::manager::TimeshiftManager;
use mirakc::timeshift::message::{
    QueryTimeshiftRecordMessage, QueryTimeshiftRecorderMessage, QueryTimeshiftRecordsMessage,
    TimeshiftChunkMessage, TimeshiftEventMessage, TimeshiftMessage,
    TimeshiftStartMessage, TimeshiftStopMessage,
};
use mirakc::timeshift::record::TimeshiftPoint;
use mirakc::timeshift::recorder::TimeshiftRecorderSession;
use std::sync::Arc;

fn timeshift_config(sid: u16) -> TimeshiftConfig {
    TimeshiftConfig {
        service_triple: ServiceTriple { nid: 1, tsid: 2, sid },
        file: "/ring".to_string(),
        chunk_size: 100,
        num_chunks: 4,
        num_reserves: 1,
        priority: 1,
    }
}

fn create_manager() -> TimeshiftManager<(), u32> {
    let config = Config {
        timeshift: vec![
            ("a".to_string(), timeshift_config(10)),
            ("b".to_string(), timeshift_config(20)),
        ],
        filters: FiltersConfig { service_filter: "".to_string(), decode_filter: "".to_string() },
        recorder: RecorderConfig { record_service_command: "".to_string() },
    };
    TimeshiftManager::new(Arc::new(config), ())
}

fn service(sid: u16, name: &str) -> (ServiceTriple, EpgService) {
    (
        ServiceTriple { nid: 1, tsid: 2, sid },
        EpgService {
            nid: 1,
            tsid: 2,
            sid,
            service_type: 1,
            logo_id: 0,
            remote_control_key_id: 0,
            name: name.to_string(),
            channel: EpgChannel {
                name: "ch".to_string(),
                channel_type: ChannelType::GR,
                channel: "27".to_string(),
                extra_args: "".to_string(),
                services: vec![],
                excluded_services: vec![],
            },
        },
    )
}

fn services(entries: Vec<(ServiceTriple, EpgService)>) -> EpgServices {
    EpgServices { entries }
}

fn chunk(id: &str, secs: i64, pos: u64) -> TimeshiftMessage {
    TimeshiftMessage::Chunk(TimeshiftChunkMessage {
        id: id.to_string(),
        chunk: TimeshiftPoint { timestamp: JstTime::new(secs, 0), pos },
    })
}

fn event(id: &str, eid: u16, secs: i64, pos: u64) -> TimeshiftEventMessage {
    TimeshiftEventMessage {
        id: id.to_string(),
        original_network_id: 1,
        transport_stream_id: 2,
        service_id: 10,
        event: EitEvent {
            event_id: eid,
            start_at: None,
            duration: None,
            scrambled: true,
            name: None,
            description: None,
            extended: None,
            genres: None,
            video: None,
            audios: None,
            series: None,
            event_group: None,
        },
        record: TimeshiftPoint { timestamp: JstTime::new(secs, 0), pos },
    }
}

fn active_manager() -> TimeshiftManager<(), u32> {
    let mut manager = create_manager();
    manager.handle_services_updated(&services(vec![service(10, "A"), service(20, "B")]));
    manager.handle_activated(vec![("a".to_string(), Ok(1)), ("b".to_string(), Ok(2))]);
    manager
}

#[test]
fn test_available_services_are_activated_once() {
    let mut manager = create_manager();
    let available = services(vec![service(30, "C"), service(20, "B"), service(10, "A")]);
    let activations = manager.handle_services_updated(&available);
    assert_eq!(activations.len(), 2);
    assert_eq!(activations[0].name, "a");
    assert_eq!(activations[0].service.sid, 10);
    assert_eq!(activations[0].config.service_triple.sid, 10);
    assert_eq!(activations[1].name, "b");
    assert_eq!(activations[1].service.name, "B");
    assert_eq!(manager.recorders.len(), 2);
    assert!(matches!(manager.recorders[0].session, TimeshiftRecorderSession::Activating));
    assert!(manager.handle_services_updated(&available).is_empty());
    assert!(matches!(manager.recorders[0].session, TimeshiftRecorderSession::Activating));
}

#[test]
fn test_unavailable_service_stops_its_recorder() {
    let mut manager = active_manager();
    manager.handle(chunk("a", 0, 0));
    let activations = manager.handle_services_updated(&services(vec![service(20, "B2")]));
    assert!(activations.is_empty());
    assert!(manager.recorders[0].is_inactive());
    assert_eq!(manager.recorders[0].points.len(), 1);
    assert!(matches!(manager.recorders[1].session, TimeshiftRecorderSession::Active(2)));
    assert_eq!(manager.recorders[1].service.name, "B2");
    let activations =
        manager.handle_services_updated(&services(vec![service(10, "A2"), service(20, "B2")]));
    assert_eq!(activations.len(), 1);
    assert_eq!(activations[0].name, "a");
    assert_eq!(activations[0].service.name, "A2");
    assert_eq!(manager.recorders[0].points.len(), 1);
}

#[test]
fn test_unavailable_service_makes_no_recorder() {
    let mut manager = create_manager();
    assert!(manager.handle_services_updated(&services(vec![])).is_empty());
    assert!(manager.recorders.is_empty());
}

#[test]
fn test_activations_settle_the_recorders() {
    let mut manager = create_manager();
    manager.handle_services_updated(&services(vec![service(10, "A"), service(20, "B")]));
    manager.handle_activated(vec![
        ("a".to_string(), Ok(5)),
        ("b".to_string(), Err(MirakcError::TunerUnavailable)),
        ("c".to_string(), Ok(6)),
    ]);
    assert_eq!(manager.recorders.len(), 2);
    assert!(matches!(manager.recorders[0].session, TimeshiftRecorderSession::Active(5)));
    assert!(manager.recorders[1].is_inactive());
}

#[test]
fn test_query_recorders() {
    let manager = active_manager();
    let now = JstTime::new(9, 9);
    let models = manager.query_recorders(now);
    assert_eq!(models.len(), 2);
    assert_eq!(models[0].name, "a");
    assert_eq!(models[1].name, "b");
    assert_eq!(models[1].start_time, now);
    assert!(models[1].recording);
    let model = manager
        .query_recorder(&QueryTimeshiftRecorderMessage { name: "b".to_string() }, now)
        .unwrap();
    assert_eq!(model.name, "b");
    let result =
        manager.query_recorder(&QueryTimeshiftRecorderMessage { name: "c".to_string() }, now);
    assert_eq!(result.err(), Some(MirakcError::RecordNotFound));
}

#[test]
fn test_query_records() {
    let mut manager = active_manager();
    manager.handle(TimeshiftMessage::EventStart(event("a", 1, 50, 0)));
    manager.handle(TimeshiftMessage::EventEnd(event("a", 1, 60, 250)));
    let models = manager
        .query_records(&QueryTimeshiftRecordsMessage { recorder_name: "a".to_string() })
        .unwrap();
    assert_eq!(models.len(), 1);
    assert_eq!(models[0].size, 250);
    assert_eq!(models[0].program.quad.eid, 1);
    assert!(models[0].program.scrambled);
    let models = manager
        .query_records(&QueryTimeshiftRecordsMessage { recorder_name: "b".to_string() })
        .unwrap();
    assert!(models.is_empty());
    let result =
        manager.query_records(&QueryTimeshiftRecordsMessage { recorder_name: "c".to_string() });
    assert_eq!(result.err(), Some(MirakcError::RecordNotFound));
}

#[test]
fn test_query_record() {
    let mut manager = active_manager();
    manager.handle(TimeshiftMessage::EventStart(event("a", 1, 50, 0)));
    manager.handle(TimeshiftMessage::EventUpdate(event("a", 1, 55, 100)));
    let query = |recorder: &str, id: i64| QueryTimeshiftRecordMessage {
        recorder_name: recorder.to_string(),
        record_id: TimeshiftRecordId::from(id),
    };
    let model = manager.query_record(&query("a", 50)).unwrap();
    assert_eq!(model.id, TimeshiftRecordId::from(50));
    assert_eq!(model.end_time, JstTime::new(55, 0));
    assert_eq!(model.size, 100);
    assert_eq!(
        manager.query_record(&query("a", 51)).err(),
        Some(MirakcError::RecordNotFound)
    );
    assert_eq!(
        manager.query_record(&query("b", 50)).err(),
        Some(MirakcError::RecordNotFound)
    );
    let (record, i) = manager.get_record("a", TimeshiftRecordId::from(50)).unwrap();
    assert_eq!(record.end.pos, 100);
    assert_eq!(i, 0);
    assert!(manager.get_record("c", TimeshiftRecordId::from(50)).is_none());
}

#[test]
fn test_streams_of_a_manager() {
    let mut manager = active_manager();
    let id = TimeshiftRecordId::from(50);
    assert_eq!(
        manager.create_live_stream_source("c", None).err(),
        Some(MirakcError::RecordNotFound)
    );
    assert_eq!(
        manager.create_live_stream_source("a", None).err(),
        Some(MirakcError::RecordNotFound)
    );
    manager.handle(chunk("a", 40, 0));
    manager.handle(TimeshiftMessage::EventStart(event("a", 1, 50, 70)));
    manager.handle(chunk("a", 60, 100));
    manager.handle(TimeshiftMessage::EventUpdate(event("a", 1, 70, 170)));
    assert_eq!(manager.create_live_stream_source("a", None).unwrap().position(), 0);
    assert_eq!(manager.create_live_stream_source("a", Some(id)).unwrap().position(), 70);
    assert_eq!(
        manager.create_live_stream_source("a", Some(TimeshiftRecordId::from(1))).err(),
        Some(MirakcError::ProgramNotFound)
    );
    let source = manager.create_record_stream_source("a", id, Some(40)).unwrap();
    assert_eq!((source.position(), source.limit()), (110, 60));
    assert_eq!(
        manager.create_record_stream_source("a", id, Some(100)).err(),
        Some(MirakcError::OutOfRange)
    );
    assert_eq!(
        manager.create_record_stream_source("a", TimeshiftRecordId::from(1), None).err(),
        Some(MirakcError::ProgramNotFound)
    );
    assert_eq!(
        manager.create_record_stream_source("c", id, None).err(),
        Some(MirakcError::RecordNotFound)
    );
}

#[test]
fn test_reports_concern_their_recorder_alone() {
    let mut manager = active_manager();
    manager.handle(TimeshiftMessage::Start(TimeshiftStartMessage { id: "a".to_string() }));
    for i in 0..4 {
        manager.handle(chunk("a", i, i as u64 * 100));
    }
    manager.handle(TimeshiftMessage::EventStart(event("a", 1, 50, 0)));
    manager.handle(TimeshiftMessage::Stop(TimeshiftStopMessage {
        id: "a".to_string(),
        reset: true,
    }));
    assert_eq!(manager.recorders[0].points.len(), 3);
    assert_eq!(manager.recorders[0].points[0].pos, 100);
    assert_eq!(manager.recorders[0].records.len(), 1);
    assert!(manager.recorders[1].points.is_empty());
    assert!(manager.recorders[1].records.is_empty());
}

#[test]
fn test_accepted_reports() {
    let manager = active_manager();
    assert!(manager.accepts(&chunk("a", 0, 300)));
    assert!(!manager.accepts(&chunk("a", 0, 301)));
    assert!(!manager.accepts(&chunk("c", 0, 300)));
    assert!(manager.accepts(&TimeshiftMessage::EventEnd(event("b", 1, 0, 1))));
    assert!(!manager.accepts(&TimeshiftMessage::EventStart(event("c", 1, 0, 1))));
    assert!(!manager.accepts(&TimeshiftMessage::Start(TimeshiftStartMessage {
        id: "c".to_string()
    })));
    let mut manager = active_manager();
    manager.recorders[0].config.num_chunks = 2;
    manager.handle(chunk("a", 0, 0));
    assert!(!manager.accepts(&chunk("a", 0, 100)));
}

#[test]
fn test_find_recorder() {
    let manager = active_manager();
    assert_eq!(manager.find("a"), Some(0));
    assert_eq!(manager.find("b"), Some(1));
    assert_eq!(manager.find("ab"), None);
}

#[test]
fn test_services_are_found_by_triple() {
    let available = services(vec![service(10, "A"), service(20, "B"), service(10, "C")]);
    let found = available.get(ServiceTriple { nid: 1, tsid: 2, sid: 10 });
    assert_eq!(found.map(|service| service.name.as_str()), Some("A"));
    assert!(available.get(ServiceTriple { nid: 2, tsid: 2, sid: 10 }).is_none());
}

#[test]
fn test_newest_chunks_are_kept() {
    let mut manager = active_manager();
    for i in 0..7 {
        manager.handle(chunk("a", i, (i as u64 % 4) * 100));
        manager.handle(chunk("b", i * 10, 0));
        manager.handle(TimeshiftMessage::EventUpdate(event("a", 1, i, 0)));
    }
    let secs: Vec<i64> =
        manager.recorders[0].points.iter().map(|point| point.timestamp.secs).collect();
    assert_eq!(secs, vec![4, 5, 6]);
    let secs: Vec<i64> =
        manager.recorders[1].points.iter().map(|point| point.timestamp.secs).collect();
    assert_eq!(secs, vec![40, 50, 60]);
}

#[test]
fn test_reports_of_a_program_make_its_record() {
    let mut manager = active_manager();
    manager.handle(TimeshiftMessage::EventStart(event("a", 1, 50, 0)));
    manager.handle(TimeshiftMessage::EventEnd(event("a", 2, 60, 100)));
    manager.handle(TimeshiftMessage::EventStart(event("a", 3, 70, 100)));
    manager.handle(TimeshiftMessage::EventUpdate(event("a", 4, 80, 200)));
    let records = &manager.recorders[0].records;
    assert_eq!(records.len(), 2);
    assert_eq!(records[0].id, TimeshiftRecordId::from(50));
    assert_eq!((records[0].start.pos, records[0].end.pos), (0, 100));
    assert!(!records[0].recording);
    assert_eq!(records[0].program.quad.eid, 2);
    assert_eq!(records[1].id, TimeshiftRecordId::from(70));
    assert_eq!((records[1].start.pos, records[1].end.pos), (100, 200));
    assert!(records[1].recording);
    assert_eq!(records[1].program.quad.eid, 4);
}
