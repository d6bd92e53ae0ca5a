use mirakc::models::{MirakurunProgramId, MirakurunServiceId, ServiceTriple, TimeshiftRecordId};
use mirakc::onair::{OnairProgramChanged, TrackerAction, TrackerEvent, TrackerState};
use mirakc::sse::{
    Event, EventData, EventSource, EventSubscription, FeedConfig, FeedStep, ProgramsUpdated,
    RecordingFailed, RecordingRescheduled, RecordingStarted, RecordingStopped, TimeshiftEvent,
    TunerEvent,
};
use mirakc::time::JstTime;

#[test]
fn test_tuner_and_epg_events() {
    let event = Event::from(TunerEvent::StatusChanged(3));
    assert_eq!(event.name, "tuner.status-changed");
    assert!(matches!(event.data, EventData::TunerStatusChanged { tuner_index: 3 }));
    let service_id = MirakurunServiceId { value: 5 };
    let event = Event::from(ProgramsUpdated { service_id });
    assert_eq!(event.name, "epg.programs-updated");
    assert!(matches!(event.data, EventData::EpgProgramsUpdated { service_id: id } if id == service_id));
}

#[test]
fn test_recording_events() {
    let program_id = MirakurunProgramId { value: 5 };
    let event = Event::from(RecordingStarted { program_id });
    assert_eq!(event.name, "recording.started");
    assert!(matches!(event.data, EventData::RecordingStarted { program_id: id } if id == program_id));
    let event = Event::from(RecordingStopped { program_id });
    assert_eq!(event.name, "recording.stopped");
    assert!(matches!(event.data, EventData::RecordingStopped { program_id: id } if id == program_id));
    let event = Event::from(RecordingFailed { program_id, reason: "{}".to_string() });
    assert_eq!(event.name, "recording.failed");
    match event.data {
        EventData::RecordingFailed { program_id: id, reason } => {
            assert_eq!(id, program_id);
            assert_eq!(reason, "{}");
        }
        _ => panic!("wrong data"),
    }
    let event = Event::from(RecordingRescheduled { program_id });
    assert_eq!(event.name, "recording.rescheduled");
    assert!(
        matches!(event.data, EventData::RecordingRescheduled { program_id: id } if id == program_id)
    );
}

#[test]
fn test_timeshift_events() {
    let recorder = || "nhk".to_string();
    let record_id = TimeshiftRecordId::from(7);
    let event = Event::from(TimeshiftEvent::Timeline {
        recorder: recorder(),
        start_time: Some(JstTime::new(1, 0)),
        end_time: None,
        duration: Some(2),
    });
    assert_eq!(event.name, "timeshift.timeline");
    match event.data {
        EventData::TimeshiftTimeline { recorder, start_time, end_time, duration } => {
            assert_eq!(recorder, "nhk");
            assert_eq!(start_time, Some(JstTime::new(1, 0)));
            assert_eq!(end_time, None);
            assert_eq!(duration, Some(2));
        }
        _ => panic!("wrong data"),
    }
    let event = Event::from(TimeshiftEvent::Started { recorder: recorder() });
    assert_eq!(event.name, "timeshift.started");
    assert!(matches!(event.data, EventData::TimeshiftStarted { recorder } if recorder == "nhk"));
    let event = Event::from(TimeshiftEvent::Stopped { recorder: recorder() });
    assert_eq!(event.name, "timeshift.stopped");
    assert!(matches!(event.data, EventData::TimeshiftStopped { recorder } if recorder == "nhk"));
    let event = Event::from(TimeshiftEvent::RecordStarted { recorder: recorder(), record_id });
    assert_eq!(event.name, "timeshift.record-started");
    assert!(matches!(event.data, EventData::TimeshiftRecordStarted { recorder, record_id: id }
        if recorder == "nhk" && id == record_id));
    let event = Event::from(TimeshiftEvent::RecordUpdated { recorder: recorder(), record_id });
    assert_eq!(event.name, "timeshift.record-updated");
    assert!(matches!(event.data, EventData::TimeshiftRecordUpdated { recorder, record_id: id }
        if recorder == "nhk" && id == record_id));
    let event = Event::from(TimeshiftEvent::RecordEnded { recorder: recorder(), record_id });
    assert_eq!(event.name, "timeshift.record-ended");
    assert!(matches!(event.data, EventData::TimeshiftRecordEnded { recorder, record_id: id }
        if recorder == "nhk" && id == record_id));
}

#[test]
fn test_onair_events_reach_trackers() {
    let event = Event::from(OnairProgramChanged {
        service_triple: ServiceTriple { nid: 3, tsid: 9, sid: 4 },
        current: None,
        next: None,
    });
    assert_eq!(event.name, "onair.program-changed");
    assert!(matches!(event.data, EventData::OnairProgramChanged { service_id }
        if service_id.value == 300004));
    let mut state = TrackerState::Listening;
    let action = state.handle(TrackerEvent::Message {
        event: event.name.to_string(),
        data: "{}".to_string(),
    });
    assert!(matches!(action, TrackerAction::Parse(_)));
}

fn subscribe(config: FeedConfig) -> EventSubscription<usize> {
    let mut subscription = EventSubscription::new(&config);
    let mut id = 0;
    while subscription.next_source().is_some() {
        subscription.register(id);
        id += 1;
    }
    subscription
}

#[test]
fn test_feed_registers_with_every_source() {
    let subscription = subscribe(FeedConfig {
        recording_enabled: true,
        timeshift_enabled: true,
        has_onair_program_trackers: true,
    });
    assert_eq!(
        subscription.finish(),
        vec![
            (EventSource::Tuner, 0),
            (EventSource::EpgProgramsUpdated, 1),
            (EventSource::RecordingStarted, 2),
            (EventSource::RecordingStopped, 3),
            (EventSource::RecordingFailed, 4),
            (EventSource::RecordingRescheduled, 5),
            (EventSource::Timeshift, 6),
            (EventSource::OnairProgramChanged, 7),
        ]
    );
}

#[test]
fn test_feed_registers_with_enabled_sources_alone() {
    let subscription = subscribe(FeedConfig {
        recording_enabled: false,
        timeshift_enabled: false,
        has_onair_program_trackers: false,
    });
    assert_eq!(
        subscription.finish(),
        vec![(EventSource::Tuner, 0), (EventSource::EpgProgramsUpdated, 1)]
    );
    let subscription = subscribe(FeedConfig {
        recording_enabled: false,
        timeshift_enabled: true,
        has_onair_program_trackers: true,
    });
    assert_eq!(
        subscription.finish(),
        vec![
            (EventSource::Tuner, 0),
            (EventSource::EpgProgramsUpdated, 1),
            (EventSource::Timeshift, 2),
            (EventSource::OnairProgramChanged, 3),
        ]
    );
}

#[test]
fn test_refused_feed_cancels_its_registrations() {
    let config = FeedConfig {
        recording_enabled: true,
        timeshift_enabled: false,
        has_onair_program_trackers: false,
    };
    let mut subscription = EventSubscription::new(&config);
    subscription.register('a');
    subscription.register('b');
    subscription.register('c');
    assert_eq!(subscription.next_source(), Some(EventSource::RecordingStopped));
    assert_eq!(
        subscription.abandon(),
        vec![
            (EventSource::RecordingStarted, 'c'),
            (EventSource::EpgProgramsUpdated, 'b'),
            (EventSource::Tuner, 'a'),
        ]
    );
}

/// Runs a feed whose sources reply as told, and gives the sources that were asked and the outcome.
fn run_feed(
    config: FeedConfig,
    refusing: &[EventSource],
) -> (Vec<EventSource>, Result<Vec<EventSource>, (EventSource, Vec<EventSource>)>) {
    let mut asked = Vec::new();
    let mut subscription = EventSubscription::new(&config);
    while let Some(source) = subscription.next_source() {
        asked.push(source);
        let reply = if refusing.contains(&source) { Err(source) } else { Ok(asked.len()) };
        match subscription.step(reply) {
            FeedStep::Continue(next) => subscription = next,
            FeedStep::Refused { error, registrations } => {
                return (asked, Err((error, registrations.iter().map(|r| r.0).collect())));
            }
        }
    }
    (asked, Ok(subscription.finish().iter().map(|r| r.0).collect()))
}

#[test]
fn test_feed_ends_with_the_first_refusal() {
    let config = FeedConfig {
        recording_enabled: true,
        timeshift_enabled: true,
        has_onair_program_trackers: true,
    };
    let refusing = [EventSource::Timeshift, EventSource::RecordingStarted];
    let (asked, outcome) = run_feed(config, &refusing);
    assert_eq!(
        asked,
        vec![EventSource::Tuner, EventSource::EpgProgramsUpdated, EventSource::RecordingStarted]
    );
    assert_eq!(
        outcome,
        Err((
            EventSource::RecordingStarted,
            vec![EventSource::EpgProgramsUpdated, EventSource::Tuner]
        ))
    );
    let (asked, outcome) = run_feed(config, &[EventSource::Tuner]);
    assert_eq!(asked, vec![EventSource::Tuner]);
    assert_eq!(outcome, Err((EventSource::Tuner, vec![])));
    let (asked, outcome) = run_feed(config, &[]);
    assert_eq!(asked.len(), 8);
    assert_eq!(outcome, Ok(asked));
}

#[test]
fn test_disabled_sources_cannot_refuse_a_feed() {
    let config = FeedConfig {
        recording_enabled: false,
        timeshift_enabled: false,
        has_onair_program_trackers: true,
    };
    let refusing = [EventSource::Timeshift, EventSource::RecordingFailed];
    let (asked, outcome) = run_feed(config, &refusing);
    assert_eq!(
        asked,
        vec![
            EventSource::Tuner,
            EventSource::EpgProgramsUpdated,
            EventSource::OnairProgramChanged
        ]
    );
    assert_eq!(outcome, Ok(asked));
}
