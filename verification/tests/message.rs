use mirakc::epg::{EitEvent, EpgServices};
use mirakc::error::MirakcError;
use mirakc::models::{ChannelType, EventQuad, MirakurunServiceId, ServiceTriple, TimeshiftRecordId};
use mirakc::text::{decimal_text, joined, same_text, signed_decimal_text};
use mirakc::time::JstTime;
use mirakc::timeshift::message::{
    forward_message, NotifyServicesUpdatedMessage, QueryTimeshiftRecordMessage,
    QueryTimeshiftRecorderMessage, QueryTimeshiftRecordersMessage, QueryTimeshiftRecordsMessage,
    ReportAction, ReportEvent, StartTimeshiftRecordStreamingMessage,
    StartTimeshiftStreamingMessage, TimeshiftEventMessage, TimeshiftMessage,
    TimeshiftStartMessage,
};
use mirakc::timeshift::record::TimeshiftPoint;

#[test]
fn test_descriptions_of_queries() {
    assert_eq!(QueryTimeshiftRecordersMessage.description(), "QueryTimeshiftRecorders");
    assert_eq!(
        QueryTimeshiftRecorderMessage { name: "nhk".to_string() }.description(),
        "QueryTimeshiftRecorder for nhk"
    );
    assert_eq!(
        QueryTimeshiftRecordsMessage { recorder_name: "nhk".to_string() }.description(),
        "QueryTimeshiftRecords in nhk"
    );
    assert_eq!(
        QueryTimeshiftRecordMessage {
            recorder_name: "nhk".to_string(),
            record_id: TimeshiftRecordId::from(1609426800),
        }
        .description(),
        "QueryTimeshiftRecord for Record#1609426800 in nhk"
    );
    assert_eq!(
        NotifyServicesUpdatedMessage { services: EpgServices { entries: vec![] } }.description(),
        "NotifyServicesUpdated"
    );
}

#[test]
fn test_descriptions_of_stream_requests() {
    let mut message =
        StartTimeshiftStreamingMessage { recorder_name: "nhk".to_string(), record_id: None };
    assert_eq!(message.description(), "StartTimeshiftStreaming for nhk");
    message.record_id = Some(TimeshiftRecordId::from(-5));
    assert_eq!(message.description(), "StartTimeshiftStreaming for Record#-5 in nhk");
    let mut message = StartTimeshiftRecordStreamingMessage {
        recorder_name: "nhk".to_string(),
        record_id: TimeshiftRecordId::from(7),
        start_pos: None,
    };
    assert_eq!(
        message.description(),
        "StartTimeshiftRecordStreaming from the beginning of Record#7 in nhk"
    );
    message.start_pos = Some(188);
    assert_eq!(
        message.description(),
        "StartTimeshiftRecordStreaming from 188 of Record#7 in nhk"
    );
}

#[test]
fn test_event_of_a_report() {
    let message = TimeshiftEventMessage {
        id: "nhk".to_string(),
        original_network_id: 1,
        transport_stream_id: 2,
        service_id: 3,
        event: EitEvent {
            event_id: 4,
            start_at: None,
            duration: None,
            scrambled: false,
            name: None,
            description: None,
            extended: None,
            genres: None,
            video: None,
            audios: None,
            series: None,
            event_group: None,
        },
        record: TimeshiftPoint { timestamp: JstTime::new(0, 0), pos: 0 },
    };
    assert_eq!(message.quad(), EventQuad { nid: 1, tsid: 2, sid: 3, eid: 4 });
}

#[test]
fn test_reports_are_forwarded_until_one_fails() {
    let message = TimeshiftMessage::Start(TimeshiftStartMessage { id: "nhk".to_string() });
    match forward_message(ReportEvent::Line(Some(message))) {
        ReportAction::Forward(TimeshiftMessage::Start(message)) => assert_eq!(message.id, "nhk"),
        _ => panic!("not forwarded"),
    }
    assert!(matches!(
        forward_message(ReportEvent::Line(None)),
        ReportAction::Finish(Err(MirakcError::InvalidReport))
    ));
    assert!(matches!(
        forward_message(ReportEvent::ReadFailed),
        ReportAction::Finish(Err(MirakcError::UnreadableReport))
    ));
    assert!(matches!(forward_message(ReportEvent::Eof), ReportAction::Finish(Ok(()))));
}

#[test]
fn test_numbers_in_decimal_notation() {
    for n in [0, 9, 10, 99, 100, 1234567890, u64::MAX] {
        assert_eq!(decimal_text(n), n.to_string());
    }
    for n in [i64::MIN, -10, -1, 0, 1, i64::MAX] {
        assert_eq!(signed_decimal_text(n), n.to_string());
    }
}

#[test]
fn test_texts() {
    assert_eq!(joined("ab", "c"), "abc");
    assert!(same_text("ab", "ab"));
    assert!(!same_text("ab", "abc"));
}

#[test]
fn test_identifiers() {
    assert_eq!(MirakurunServiceId::from((32736, 1024)).value, 3273601024);
    assert_ne!(MirakurunServiceId::from((1, 0)), MirakurunServiceId::from((0, 65535)));
    assert_eq!(ServiceTriple::from((1, 2, 3)), ServiceTriple { nid: 1, tsid: 2, sid: 3 });
    assert_eq!(EventQuad::from((1, 2, 3, 4)), EventQuad::new(1, 2, 3, 4));
    assert_eq!(TimeshiftRecordId::from(5).value, 5);
}

#[test]
fn test_channel_types_have_names() {
    assert_eq!(ChannelType::GR.name(), "GR");
    assert_eq!(ChannelType::BS.name(), "BS");
    assert_eq!(ChannelType::CS.name(), "CS");
    assert_eq!(ChannelType::SKY.name(), "SKY");
}
