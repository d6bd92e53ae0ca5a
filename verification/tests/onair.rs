use mirakc::config::RemoteOnairProgramTrackerConfig;
use mirakc::epg::{
    EpgAudioInfo, EpgEventGroup, EpgGenre, EpgProgram, EpgSeriesInfo, EpgVideoInfo,
};
use mirakc::models::{EventQuad, MirakurunProgramId, MirakurunServiceId, ServiceTriple};
use mirakc::onair::{
    convert_program, lost_properties, MirakurunProgram, RemoteTracker, TrackerAction,
    TrackerEvent, TrackerState, WebOnairProgram,
};
use mirakc::time::JstTime;
use std::collections::HashSet;
use std::sync::Arc;

fn ids(ids: &[(u16, u16)]) -> HashSet<u64> {
    ids.iter().map(|id| MirakurunServiceId::from(*id).value).collect()
}

fn create_config(url: &str) -> RemoteOnairProgramTrackerConfig {
    RemoteOnairProgramTrackerConfig {
        url: url.to_string(),
        services: ids(&[]),
        excluded_services: ids(&[]),
    }
}

fn create_program(nid: u16, tsid: u16, sid: u16, eid: u16) -> MirakurunProgram {
    MirakurunProgram {
        id: MirakurunProgramId { value: 1 },
        event_id: eid,
        service_id: sid,
        transport_stream_id: tsid,
        network_id: nid,
        start_at: Some(JstTime::new(100, 0)),
        duration: Some(1800000),
        is_free: true,
        name: Some("news".to_string()),
        description: Some("today".to_string()),
        extended: Some(vec![("k".to_string(), "v".to_string())]),
        genres: Some(vec![EpgGenre { lv1: 1, lv2: 2, un1: 3, un2: 4 }]),
        video: None,
        audio: None,
        audios: None,
        series: None,
        related_items: None,
    }
}

fn onair(service_id: (u16, u16), current: Option<u16>, next: Option<u16>) -> WebOnairProgram {
    WebOnairProgram {
        service_id: service_id.into(),
        current: current.map(|eid| create_program(service_id.0, 7, service_id.1, eid)),
        next: next.map(|eid| create_program(service_id.0, 8, service_id.1, eid)),
    }
}

#[test]
fn test_config_matches() {
    let mut config = create_config("http://dummy/");
    assert!(config.matches((1, 1).into()));
    assert!(config.matches((1, 2).into()));

    config.services = ids(&[(1, 1)]);
    assert!(config.matches((1, 1).into()));
    assert!(!config.matches((1, 2).into()));

    config.excluded_services = ids(&[(1, 1)]);
    assert!(!config.matches((1, 1).into()));
    assert!(!config.matches((1, 2).into()));
}

#[test]
fn test_config_excludes_services() {
    let mut config = create_config("http://dummy/");
    config.excluded_services = ids(&[(1, 1)]);
    assert!(!config.matches((1, 1).into()));
    assert!(config.matches((1, 2).into()));
}

#[test]
fn test_service_of_onair_programs() {
    assert!(onair((1, 2), None, None).is_empty());
    assert!(!onair((1, 2), Some(1), None).is_empty());
    assert!(!onair((1, 2), None, Some(1)).is_empty());
    assert_eq!(
        onair((1, 2), Some(1), Some(2)).service_triple(),
        ServiceTriple { nid: 1, tsid: 7, sid: 2 }
    );
    assert_eq!(
        onair((1, 2), None, Some(2)).service_triple(),
        ServiceTriple { nid: 1, tsid: 8, sid: 2 }
    );
}

#[test]
fn test_program_is_converted_without_the_guide() {
    let mut program = create_program(1, 2, 3, 4);
    program.video = Some("{}".to_string());
    let converted = convert_program(Some(program), None).unwrap();
    assert_eq!(converted.quad, EventQuad::new(1, 2, 3, 4));
    assert_eq!(converted.start_at, Some(JstTime::new(100, 0)));
    assert_eq!(converted.duration, Some(1800000));
    assert!(!converted.scrambled);
    assert_eq!(converted.name, Some("news".to_string()));
    assert_eq!(converted.description, Some("today".to_string()));
    assert_eq!(converted.extended, Some(vec![("k".to_string(), "v".to_string())]));
    assert_eq!(converted.genres, Some(vec![EpgGenre { lv1: 1, lv2: 2, un1: 3, un2: 4 }]));
    assert_eq!(converted.video, None);
    assert_eq!(converted.audios, None);
    assert_eq!(converted.series, None);
    assert!(converted.event_group.is_none());
    assert!(convert_program(None, None).is_none());
}

#[test]
fn test_program_is_supplemented_by_the_guide() {
    let mut program = create_program(1, 2, 3, 4);
    program.is_free = false;
    let mut guide = EpgProgram::new(EventQuad::new(9, 9, 9, 9));
    let video = EpgVideoInfo { stream_content: 1, component_type: 179 };
    let audio =
        EpgAudioInfo { component_type: 1, component_tag: 16, is_main: true, sampling_rate: 48000 };
    let series = EpgSeriesInfo {
        series_id: 5,
        repeat_label: 0,
        program_pattern: 1,
        episode_number: 2,
        last_episode_number: 12,
    };
    guide.name = Some("other".to_string());
    guide.video = Some(video);
    guide.audios = Some(vec![audio]);
    guide.series = Some(series);
    guide.event_group =
        Some(EpgEventGroup { group_type: 1, events: vec![EventQuad::new(1, 1, 1, 1)] });
    let converted = convert_program(Some(program), Some(guide)).unwrap();
    assert_eq!(converted.quad, EventQuad::new(1, 2, 3, 4));
    assert!(converted.scrambled);
    assert_eq!(converted.name, Some("news".to_string()));
    assert_eq!(converted.video, Some(video));
    assert_eq!(converted.audios, Some(vec![audio]));
    assert_eq!(converted.series, Some(series));
    let group = converted.event_group.as_ref().unwrap();
    assert_eq!(group.group_type, 1);
    assert_eq!(group.events, vec![EventQuad::new(1, 1, 1, 1)]);
}

#[test]
fn test_lost_properties() {
    let program = create_program(1, 2, 3, 4);
    let mut check = create_program(1, 2, 3, 4);
    let lost = lost_properties(&program, &check);
    assert!(!lost.video && !lost.audios && !lost.series && !lost.event_group);
    check.video = Some("1".to_string());
    check.audio = Some("1".to_string());
    let lost = lost_properties(&program, &check);
    assert!(lost.video && lost.audios && !lost.series && !lost.event_group);
    let mut check = create_program(1, 2, 3, 4);
    check.audios = Some("[]".to_string());
    check.series = Some("1".to_string());
    check.related_items = Some("1".to_string());
    let lost = lost_properties(&program, &check);
    assert!(!lost.video && lost.audios && lost.series && lost.event_group);
}

#[test]
fn test_tracker_announces_followed_services() {
    let mut config = create_config("http://dummy/");
    config.excluded_services = ids(&[(1, 2)]);
    let tracker = RemoteTracker::new("tracker".to_string(), Arc::new(config), 'e', 'm');
    assert_eq!(tracker.0.name, "tracker");
    assert_eq!(tracker.0.config.url, "http://dummy/");
    assert_eq!((tracker.0.epg, tracker.0.emitter), ('e', 'm'));
    assert!(tracker.0.emission(onair((1, 2), Some(1), None)).is_none());
    assert!(tracker.0.emission(onair((1, 1), None, None)).is_none());
    let emission = tracker.0.emission(onair((1, 1), Some(5), Some(6))).unwrap();
    assert_eq!(emission.current_quad(), Some(EventQuad::new(1, 7, 1, 5)));
    assert_eq!(emission.next_quad(), Some(EventQuad::new(1, 8, 1, 6)));
    let change = emission.complete(None, Some(EpgProgram::new(EventQuad::new(1, 8, 1, 6))));
    assert_eq!(change.service_triple, ServiceTriple { nid: 1, tsid: 7, sid: 1 });
    assert_eq!(change.service_id(), MirakurunServiceId { value: 100001 });
    assert_eq!(change.current.unwrap().quad.eid, 5);
    assert_eq!(change.next.unwrap().quad.eid, 6);
    let emission = tracker.0.emission(onair((1, 1), None, Some(6))).unwrap();
    assert_eq!(emission.current_quad(), None);
    assert!(emission.complete(None, None).current.is_none());
}

#[test]
fn test_tracker_announces_programs_at_start() {
    let mut config = create_config("http://dummy/");
    config.services = ids(&[(1, 1), (1, 3), (1, 4)]);
    let tracker = RemoteTracker::new("tracker".to_string(), Arc::new(config), (), ());
    let emissions = tracker.0.initial_emissions(vec![
        onair((1, 1), Some(1), None),
        onair((1, 2), Some(2), None),
        onair((1, 3), None, None),
        onair((1, 4), None, Some(4)),
    ]);
    assert_eq!(emissions.len(), 2);
    assert_eq!(emissions[0].service_triple.sid, 1);
    assert_eq!(emissions[1].service_triple.sid, 4);
}

fn message(event: &str) -> TrackerEvent {
    TrackerEvent::Message { event: event.to_string(), data: "data".to_string() }
}

#[test]
fn test_tracker_follows_a_change() {
    let mut state = TrackerState::Listening;
    assert!(matches!(state.handle(TrackerEvent::Opened), TrackerAction::Listen));
    match state.handle(message("onair.program-changed")) {
        TrackerAction::Parse(data) => assert_eq!(data, "data"),
        _ => panic!("not parsed"),
    }
    assert_eq!(state, TrackerState::Parsing);
    let id = MirakurunServiceId::from((1, 1));
    match state.handle(TrackerEvent::Parsed(Some(id))) {
        TrackerAction::Fetch(service_id) => assert_eq!(service_id, id),
        _ => panic!("not fetched"),
    }
    assert_eq!(state, TrackerState::Fetching);
    match state.handle(TrackerEvent::Fetched(Some(onair((1, 1), Some(1), None)))) {
        TrackerAction::Emit(onair_program) => assert_eq!(onair_program.service_id, id),
        _ => panic!("not emitted"),
    }
    assert_eq!(state, TrackerState::Listening);
}

#[test]
fn test_tracker_ignores_other_messages_and_failures() {
    let mut state = TrackerState::Listening;
    assert!(matches!(state.handle(message("timeshift.started")), TrackerAction::Listen));
    assert!(matches!(state.handle(message("")), TrackerAction::Listen));
    assert_eq!(state, TrackerState::Listening);
    state.handle(message("onair.program-changed"));
    assert!(matches!(state.handle(TrackerEvent::Parsed(None)), TrackerAction::Listen));
    assert_eq!(state, TrackerState::Listening);
    state.handle(message("onair.program-changed"));
    state.handle(TrackerEvent::Parsed(Some(MirakurunServiceId::from((1, 1)))));
    assert!(matches!(state.handle(TrackerEvent::Fetched(None)), TrackerAction::Listen));
    assert_eq!(state, TrackerState::Listening);
}

#[test]
fn test_tracker_closes_a_failed_event_source() {
    let mut state = TrackerState::Listening;
    assert!(matches!(state.handle(TrackerEvent::Failed), TrackerAction::Close));
    assert_eq!(state, TrackerState::Listening);
    assert!(matches!(state.handle(TrackerEvent::Ended), TrackerAction::Finish));
    assert_eq!(state, TrackerState::Finished);
}
