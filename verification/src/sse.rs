//! The feed of server-sent events: what is sent to clients, and where it comes from.

use crate::models::{MirakurunProgramId, MirakurunServiceId, TimeshiftRecordId};
use crate::onair::{
    onair_event_name, tracker_action, OnairProgramChanged, TrackerAction, TrackerEvent,
};
use crate::time::JstTime;
use vstd::prelude::*;
use vstd::std_specs::convert::{FromSpec, FromSpecImpl};

verus! {

/// The state of a tuner has changed.
#[derive(Clone, Copy, Debug, PartialEq, Eq, Structural)]
pub enum TunerEvent {
    StatusChanged(usize),
}

/// The programs of a service have been updated.
#[derive(Clone, Copy, Debug, PartialEq, Eq, Structural)]
pub struct ProgramsUpdated {
    pub service_id: MirakurunServiceId,
}

/// The recording of a program has started.
#[derive(Clone, Copy, Debug, PartialEq, Eq, Structural)]
pub struct RecordingStarted {
    pub program_id: MirakurunProgramId,
}

/// The recording of a program has stopped.
#[derive(Clone, Copy, Debug, PartialEq, Eq, Structural)]
pub struct RecordingStopped {
    pub program_id: MirakurunProgramId,
}

/// The recording of a program has failed.
#[derive(Debug)]
pub struct RecordingFailed {
    pub program_id: MirakurunProgramId,
    /// The reason, as JSON.
    pub reason: String,
}

/// The recording of a program has been rescheduled.
#[derive(Clone, Copy, Debug, PartialEq, Eq, Structural)]
pub struct RecordingRescheduled {
    pub program_id: MirakurunProgramId,
}

/// Something has happened to a timeshift recorder.
#[derive(Debug)]
pub enum TimeshiftEvent {
    Timeline {
        recorder: String,
        start_time: Option<JstTime>,
        end_time: Option<JstTime>,
        /// The duration in milliseconds.
        duration: Option<i64>,
    },
    Started { recorder: String },
    Stopped { recorder: String },
    RecordStarted { recorder: String, record_id: TimeshiftRecordId },
    RecordUpdated { recorder: String, record_id: TimeshiftRecordId },
    RecordEnded { recorder: String, record_id: TimeshiftRecordId },
}

/// The data of an event that is sent to clients.
#[derive(Debug)]
pub enum EventData {
    TunerStatusChanged { tuner_index: usize },
    EpgProgramsUpdated { service_id: MirakurunServiceId },
    RecordingStarted { program_id: MirakurunProgramId },
    RecordingStopped { program_id: MirakurunProgramId },
    RecordingFailed { program_id: MirakurunProgramId, reason: String },
    RecordingRescheduled { program_id: MirakurunProgramId },
    TimeshiftTimeline {
        recorder: String,
        start_time: Option<JstTime>,
        end_time: Option<JstTime>,
        duration: Option<i64>,
    },
    TimeshiftStarted { recorder: String },
    TimeshiftStopped { recorder: String },
    TimeshiftRecordStarted { recorder: String, record_id: TimeshiftRecordId },
    TimeshiftRecordUpdated { recorder: String, record_id: TimeshiftRecordId },
    TimeshiftRecordEnded { recorder: String, record_id: TimeshiftRecordId },
    OnairProgramChanged { service_id: MirakurunServiceId },
}

/// An event that is sent to clients.
#[derive(Debug)]
pub struct Event {
    pub name: &'static str,
    pub data: EventData,
}

impl From<TunerEvent> for Event {
    fn from(val: TunerEvent) -> (event: Event) {
        match val {
            TunerEvent::StatusChanged(tuner_index) => Event {
                name: "tuner.status-changed",
                data: EventData::TunerStatusChanged { tuner_index },
            },
        }
    }
}

impl FromSpecImpl<TunerEvent> for Event {
    open spec fn obeys_from_spec() -> bool {
        true
    }

    open spec fn from_spec(val: TunerEvent) -> Event {
        match val {
            TunerEvent::StatusChanged(tuner_index) => Event {
                name: "tuner.status-changed",
                data: EventData::TunerStatusChanged { tuner_index },
            },
        }
    }
}

impl From<ProgramsUpdated> for Event {
    fn from(val: ProgramsUpdated) -> (event: Event) {
        Event {
            name: "epg.programs-updated",
            data: EventData::EpgProgramsUpdated { service_id: val.service_id },
        }
    }
}

impl FromSpecImpl<ProgramsUpdated> for Event {
    open spec fn obeys_from_spec() -> bool {
        true
    }

    open spec fn from_spec(val: ProgramsUpdated) -> Event {
        Event {
            name: "epg.programs-updated",
            data: EventData::EpgProgramsUpdated { service_id: val.service_id },
        }
    }
}

impl From<RecordingStarted> for Event {
    fn from(val: RecordingStarted) -> (event: Event) {
        Event {
            name: "recording.started",
            data: EventData::RecordingStarted { program_id: val.program_id },
        }
    }
}

impl FromSpecImpl<RecordingStarted> for Event {
    open spec fn obeys_from_spec() -> bool {
        true
    }

    open spec fn from_spec(val: RecordingStarted) -> Event {
        Event {
            name: "recording.started",
            data: EventData::RecordingStarted { program_id: val.program_id },
        }
    }
}

impl From<RecordingStopped> for Event {
    fn from(val: RecordingStopped) -> (event: Event) {
        Event {
            name: "recording.stopped",
            data: EventData::RecordingStopped { program_id: val.program_id },
        }
    }
}

impl FromSpecImpl<RecordingStopped> for Event {
    open spec fn obeys_from_spec() -> bool {
        true
    }

    open spec fn from_spec(val: RecordingStopped) -> Event {
        Event {
            name: "recording.stopped",
            data: EventData::RecordingStopped { program_id: val.program_id },
        }
    }
}

impl From<RecordingFailed> for Event {
    fn from(val: RecordingFailed) -> (event: Event) {
        Event {
            name: "recording.failed",
            data: EventData::RecordingFailed { program_id: val.program_id, reason: val.reason },
        }
    }
}

impl FromSpecImpl<RecordingFailed> for Event {
    open spec fn obeys_from_spec() -> bool {
        true
    }

    open spec fn from_spec(val: RecordingFailed) -> Event {
        Event {
            name: "recording.failed",
            data: EventData::RecordingFailed { program_id: val.program_id, reason: val.reason },
        }
    }
}

impl From<RecordingRescheduled> for Event {
    fn from(val: RecordingRescheduled) -> (event: Event) {
        Event {
            name: "recording.rescheduled",
            data: EventData::RecordingRescheduled { program_id: val.program_id },
        }
    }
}

impl FromSpecImpl<RecordingRescheduled> for Event {
    open spec fn obeys_from_spec() -> bool {
        true
    }

    open spec fn from_spec(val: RecordingRescheduled) -> Event {
        Event {
            name: "recording.rescheduled",
            data: EventData::RecordingRescheduled { program_id: val.program_id },
        }
    }
}

impl From<TimeshiftEvent> for Event {
    fn from(val: TimeshiftEvent) -> (event: Event) {
        match val {
            TimeshiftEvent::Timeline { recorder, start_time, end_time, duration } => Event {
                name: "timeshift.timeline",
                data: EventData::TimeshiftTimeline { recorder, start_time, end_time, duration },
            },
            TimeshiftEvent::Started { recorder } => Event {
                name: "timeshift.started",
                data: EventData::TimeshiftStarted { recorder },
            },
            TimeshiftEvent::Stopped { recorder } => Event {
                name: "timeshift.stopped",
                data: EventData::TimeshiftStopped { recorder },
            },
            TimeshiftEvent::RecordStarted { recorder, record_id } => Event {
                name: "timeshift.record-started",
                data: EventData::TimeshiftRecordStarted { recorder, record_id },
            },
            TimeshiftEvent::RecordUpdated { recorder, record_id } => Event {
                name: "timeshift.record-updated",
                data: EventData::TimeshiftRecordUpdated { recorder, record_id },
            },
            TimeshiftEvent::RecordEnded { recorder, record_id } => Event {
                name: "timeshift.record-ended",
                data: EventData::TimeshiftRecordEnded { recorder, record_id },
            },
        }
    }
}

impl FromSpecImpl<TimeshiftEvent> for Event {
    open spec fn obeys_from_spec() -> bool {
        true
    }

    open spec fn from_spec(val: TimeshiftEvent) -> Event {
        match val {
            TimeshiftEvent::Timeline { recorder, start_time, end_time, duration } => Event {
                name: "timeshift.timeline",
                data: EventData::TimeshiftTimeline { recorder, start_time, end_time, duration },
            },
            TimeshiftEvent::Started { recorder } => Event {
                name: "timeshift.started",
                data: EventData::TimeshiftStarted { recorder },
            },
            TimeshiftEvent::Stopped { recorder } => Event {
                name: "timeshift.stopped",
                data: EventData::TimeshiftStopped { recorder },
            },
            TimeshiftEvent::RecordStarted { recorder, record_id } => Event {
                name: "timeshift.record-started",
                data: EventData::TimeshiftRecordStarted { recorder, record_id },
            },
            TimeshiftEvent::RecordUpdated { recorder, record_id } => Event {
                name: "timeshift.record-updated",
                data: EventData::TimeshiftRecordUpdated { recorder, record_id },
            },
            TimeshiftEvent::RecordEnded { recorder, record_id } => Event {
                name: "timeshift.record-ended",
                data: EventData::TimeshiftRecordEnded { recorder, record_id },
            },
        }
    }
}

impl From<OnairProgramChanged> for Event {
    fn from(val: OnairProgramChanged) -> (event: Event) {
        Event {
            name: "onair.program-changed",
            data: EventData::OnairProgramChanged { service_id: val.service_id() },
        }
    }
}

impl FromSpecImpl<OnairProgramChanged> for Event {
    open spec fn obeys_from_spec() -> bool {
        true
    }

    open spec fn from_spec(val: OnairProgramChanged) -> Event {
        Event {
            name: "onair.program-changed",
            data: EventData::OnairProgramChanged { service_id: val.spec_service_id() },
        }
    }
}

/// The name under which data is sent to clients.
pub open spec fn event_name(data: EventData) -> Seq<char> {
    match data {
        EventData::TunerStatusChanged { .. } => "tuner.status-changed"@,
        EventData::EpgProgramsUpdated { .. } => "epg.programs-updated"@,
        EventData::RecordingStarted { .. } => "recording.started"@,
        EventData::RecordingStopped { .. } => "recording.stopped"@,
        EventData::RecordingFailed { .. } => "recording.failed"@,
        EventData::RecordingRescheduled { .. } => "recording.rescheduled"@,
        EventData::TimeshiftTimeline { .. } => "timeshift.timeline"@,
        EventData::TimeshiftStarted { .. } => "timeshift.started"@,
        EventData::TimeshiftStopped { .. } => "timeshift.stopped"@,
        EventData::TimeshiftRecordStarted { .. } => "timeshift.record-started"@,
        EventData::TimeshiftRecordUpdated { .. } => "timeshift.record-updated"@,
        EventData::TimeshiftRecordEnded { .. } => "timeshift.record-ended"@,
        EventData::OnairProgramChanged { .. } => onair_event_name(),
    }
}

/// The kind of data, as a number.
pub open spec fn event_kind(data: EventData) -> int {
    match data {
        EventData::TunerStatusChanged { .. } => 0,
        EventData::EpgProgramsUpdated { .. } => 1,
        EventData::RecordingStarted { .. } => 2,
        EventData::RecordingStopped { .. } => 3,
        EventData::RecordingFailed { .. } => 4,
        EventData::RecordingRescheduled { .. } => 5,
        EventData::TimeshiftTimeline { .. } => 6,
        EventData::TimeshiftStarted { .. } => 7,
        EventData::TimeshiftStopped { .. } => 8,
        EventData::TimeshiftRecordStarted { .. } => 9,
        EventData::TimeshiftRecordUpdated { .. } => 10,
        EventData::TimeshiftRecordEnded { .. } => 11,
        EventData::OnairProgramChanged { .. } => 12,
    }
}

/// Every event is sent under the name of its data.
pub proof fn events_are_named_by_their_data(
    tuner: TunerEvent,
    programs: ProgramsUpdated,
    started: RecordingStarted,
    stopped: RecordingStopped,
    failed: RecordingFailed,
    rescheduled: RecordingRescheduled,
    timeshift: TimeshiftEvent,
    onair: OnairProgramChanged,
)
    ensures
        ({
            let named = |event: Event| event.name@ == event_name(event.data);
            &&& named(<Event as FromSpec<TunerEvent>>::from_spec(tuner))
            &&& named(<Event as FromSpec<ProgramsUpdated>>::from_spec(programs))
            &&& named(<Event as FromSpec<RecordingStarted>>::from_spec(started))
            &&& named(<Event as FromSpec<RecordingStopped>>::from_spec(stopped))
            &&& named(<Event as FromSpec<RecordingFailed>>::from_spec(failed))
            &&& named(<Event as FromSpec<RecordingRescheduled>>::from_spec(rescheduled))
            &&& named(<Event as FromSpec<TimeshiftEvent>>::from_spec(timeshift))
            &&& named(<Event as FromSpec<OnairProgramChanged>>::from_spec(onair))
        }),
{
}

/// Clients can tell the kind of data by the name of the event.
pub proof fn event_names_tell_the_kind(a: EventData, b: EventData)
    requires
        event_name(a) == event_name(b),
    ensures
        event_kind(a) == event_kind(b),
{
    reveal_strlit("tuner.status-changed");
    reveal_strlit("epg.programs-updated");
    reveal_strlit("recording.started");
    reveal_strlit("recording.stopped");
    reveal_strlit("recording.failed");
    reveal_strlit("recording.rescheduled");
    reveal_strlit("timeshift.timeline");
    reveal_strlit("timeshift.started");
    reveal_strlit("timeshift.stopped");
    reveal_strlit("timeshift.record-started");
    reveal_strlit("timeshift.record-updated");
    reveal_strlit("timeshift.record-ended");
    reveal_strlit("onair.program-changed");
    assert("tuner.status-changed"@.len() == 20);
    assert("epg.programs-updated"@.len() == 20);
    assert("recording.started"@.len() == 17);
    assert("recording.stopped"@.len() == 17);
    assert("recording.failed"@.len() == 16);
    assert("recording.rescheduled"@.len() == 21);
    assert("timeshift.timeline"@.len() == 18);
    assert("timeshift.started"@.len() == 17);
    assert("timeshift.stopped"@.len() == 17);
    assert("timeshift.record-started"@.len() == 24);
    assert("timeshift.record-updated"@.len() == 24);
    assert("timeshift.record-ended"@.len() == 22);
    assert("onair.program-changed"@.len() == 21);
    assert("tuner.status-changed"@[0] != "epg.programs-updated"@[0]);
    assert("recording.rescheduled"@[0] != "onair.program-changed"@[0]);
    assert("recording.started"@[0] == 'r' && "recording.started"@[12] == 'a');
    assert("recording.stopped"@[0] == 'r' && "recording.stopped"@[12] == 'o');
    assert("timeshift.started"@[0] == 't' && "timeshift.started"@[12] == 'a');
    assert("timeshift.stopped"@[0] == 't' && "timeshift.stopped"@[12] == 'o');
    assert("timeshift.record-started"@[17] != "timeshift.record-updated"@[17]);
}

/// A tracker that follows this server takes in the changes of on-air programs, and ignores
/// everything else that is sent.
pub proof fn trackers_take_in_onair_changes_alone(event: String, data: String, sent: EventData)
    requires
        event@ == event_name(sent),
    ensures
        tracker_action(TrackerEvent::Message { event, data }) == if sent is OnairProgramChanged {
            TrackerAction::Parse(data)
        } else {
            TrackerAction::Listen
        },
{
    let onair = EventData::OnairProgramChanged { service_id: MirakurunServiceId { value: 0 } };
    if event@ == onair_event_name() {
        event_names_tell_the_kind(sent, onair);
    }
}

/// What the feed is fed by.
#[derive(Clone, Copy, Debug, PartialEq, Eq, Structural)]
pub enum EventSource {
    Tuner,
    EpgProgramsUpdated,
    RecordingStarted,
    RecordingStopped,
    RecordingFailed,
    RecordingRescheduled,
    Timeshift,
    OnairProgramChanged,
}

/// Which of the optional parts of the server are in use.
#[derive(Clone, Copy, Debug, PartialEq, Eq, Structural)]
pub struct FeedConfig {
    pub recording_enabled: bool,
    pub timeshift_enabled: bool,
    pub has_onair_program_trackers: bool,
}

impl FeedConfig {
    /// A source exists: the tuners and the guide always do, the others if their part is in use.
    pub open spec fn provides(self, source: EventSource) -> bool {
        match source {
            EventSource::Tuner => true,
            EventSource::EpgProgramsUpdated => true,
            EventSource::RecordingStarted => self.recording_enabled,
            EventSource::RecordingStopped => self.recording_enabled,
            EventSource::RecordingFailed => self.recording_enabled,
            EventSource::RecordingRescheduled => self.recording_enabled,
            EventSource::Timeshift => self.timeshift_enabled,
            EventSource::OnairProgramChanged => self.has_onair_program_trackers,
        }
    }

    /// The sources, in the order in which the feed registers with them.
    pub open spec fn sources(self) -> Seq<EventSource> {
        seq![EventSource::Tuner, EventSource::EpgProgramsUpdated] + (if self.recording_enabled {
            seq![
                EventSource::RecordingStarted,
                EventSource::RecordingStopped,
                EventSource::RecordingFailed,
                EventSource::RecordingRescheduled,
            ]
        } else {
            Seq::empty()
        }) + (if self.timeshift_enabled {
            seq![EventSource::Timeshift]
        } else {
            Seq::empty()
        }) + (if self.has_onair_program_trackers {
            seq![EventSource::OnairProgramChanged]
        } else {
            Seq::empty()
        })
    }
}

/// Where a feed stands that registers with its sources.
#[verifier::ext_equal]
#[verifier::reject_recursive_types(I)]
#[verifier::reject_recursive_types(E)]
pub enum FeedView<I, E> {
    /// It has registered with the first of its sources.
    Registering(Seq<(EventSource, I)>),
    /// A source has refused to register it, which ends the feed with the error of that source.
    /// The registrations are to be cancelled in their order.
    Refused { error: E, registrations: Seq<(EventSource, I)> },
}

/// Where a feed stands after the reply of the source that comes behind those it has registered
/// with.
pub open spec fn after_reply<I, E>(
    sources: Seq<EventSource>,
    done: Seq<(EventSource, I)>,
    reply: Result<I, E>,
) -> FeedView<I, E> {
    match reply {
        Ok(id) => FeedView::Registering(done.push((sources[done.len() as int], id))),
        Err(error) => FeedView::Refused { error, registrations: done.reverse() },
    }
}

/// The source that a feed registers with next. There is none once the feed has registered with all,
/// or has been refused.
pub open spec fn next_source_of<I, E>(
    sources: Seq<EventSource>,
    feed: FeedView<I, E>,
) -> Option<EventSource> {
    match feed {
        FeedView::Registering(done) => if done.len() < sources.len() {
            Some(sources[done.len() as int])
        } else {
            None
        },
        FeedView::Refused { .. } => None,
    }
}

/// Where a feed stands after replies, one after another.
pub open spec fn after_replies<I, E>(
    sources: Seq<EventSource>,
    replies: Seq<Result<I, E>>,
) -> FeedView<I, E>
    decreases replies.len(),
{
    if replies.len() == 0 {
        FeedView::Registering(Seq::empty())
    } else {
        match after_replies(sources, replies.drop_last()) {
            FeedView::Registering(done) => after_reply(sources, done, replies.last()),
            refused => refused,
        }
    }
}

/// Every reply answers a registration: there is a source to register with before each of them.
pub open spec fn answered<I, E>(
    sources: Seq<EventSource>,
    replies: Seq<Result<I, E>>,
) -> bool
    decreases replies.len(),
{
    replies.len() > 0 ==> {
        &&& answered(sources, replies.drop_last())
        &&& next_source_of(sources, after_replies(sources, replies.drop_last())) is Some
    }
}

/// What a feed does after a reply.
#[derive(Debug)]
pub enum FeedStep<I, E> {
    /// It goes on with the next source.
    Continue(EventSubscription<I>),
    /// It ends with an error, and its registrations are to be cancelled in their order.
    Refused { error: E, registrations: Vec<(EventSource, I)> },
}

/// The registrations of a feed. `I` identifies a registration with a source.
#[derive(Debug)]
pub struct EventSubscription<I> {
    sources: Vec<EventSource>,
    registrations: Vec<(EventSource, I)>,
}

impl<I> EventSubscription<I> {
    /// All of the sources, in the order in which the feed registers with them.
    pub closed spec fn all(self) -> Seq<EventSource> {
        self.sources@
    }

    /// The registrations so far, from the first to the last.
    pub closed spec fn done(self) -> Seq<(EventSource, I)> {
        self.registrations@
    }

    /// The feed has registered with the first of its sources.
    pub open spec fn valid(self) -> bool {
        &&& self.done().len() <= self.all().len()
        &&& forall|i: int|
            0 <= i < self.done().len() ==> (#[trigger] self.done()[i]).0 == self.all()[i]
    }

    /// A feed that has not registered with any source.
    pub fn new(config: &FeedConfig) -> (subscription: EventSubscription<I>)
        ensures
            subscription.valid(),
            subscription.all() == config.sources(),
            subscription.done() == Seq::<(EventSource, I)>::empty(),
    {
        let mut sources: Vec<EventSource> = Vec::new();
        sources.push(EventSource::Tuner);
        sources.push(EventSource::EpgProgramsUpdated);
        if config.recording_enabled {
            sources.push(EventSource::RecordingStarted);
            sources.push(EventSource::RecordingStopped);
            sources.push(EventSource::RecordingFailed);
            sources.push(EventSource::RecordingRescheduled);
        }
        if config.timeshift_enabled {
            sources.push(EventSource::Timeshift);
        }
        if config.has_onair_program_trackers {
            sources.push(EventSource::OnairProgramChanged);
        }
        proof {
            assert(sources@ =~= config.sources());
        }
        EventSubscription { sources, registrations: Vec::new() }
    }

    /// Gives the source to register with next, unless the feed has registered with all.
    pub fn next_source(&self) -> (source: Option<EventSource>)
        requires
            self.valid(),
        ensures
            source == if self.done().len() < self.all().len() {
                Some(self.all()[self.done().len() as int])
            } else {
                None
            },
    {
        if self.registrations.len() < self.sources.len() {
            Some(self.sources[self.registrations.len()])
        } else {
            None
        }
    }

    /// Takes in that the feed has registered with the next source.
    pub fn register(&mut self, id: I)
        requires
            old(self).valid(),
            old(self).done().len() < old(self).all().len(),
        ensures
            final(self).valid(),
            final(self).all() == old(self).all(),
            final(self).done() == old(self).done().push(
                (old(self).all()[old(self).done().len() as int], id),
            ),
    {
        let source = self.sources[self.registrations.len()];
        self.registrations.push((source, id));
    }

    /// Takes in the reply of the next source: the feed goes on if the source has registered it, and
    /// ends with the error if not.
    pub fn step<E>(self, reply: Result<I, E>) -> (next: FeedStep<I, E>)
        requires
            self.valid(),
            self.done().len() < self.all().len(),
        ensures
            match reply {
                Ok(id) => next matches FeedStep::Continue(subscription) && {
                    &&& subscription.valid()
                    &&& subscription.all() == self.all()
                    &&& subscription.done() == self.done().push(
                        (self.all()[self.done().len() as int], id),
                    )
                },
                Err(refusal) => next matches FeedStep::Refused { error, registrations }
                    && error == refusal && registrations@ == self.done().reverse(),
            },
            after_reply(self.all(), self.done(), reply) == match next {
                FeedStep::Continue(subscription) => FeedView::Registering(subscription.done()),
                FeedStep::Refused { error, registrations } => FeedView::Refused {
                    error,
                    registrations: registrations@,
                },
            },
    {
        match reply {
            Ok(id) => {
                let mut subscription = self;
                subscription.register(id);
                FeedStep::Continue(subscription)
            },
            Err(error) => FeedStep::Refused { error, registrations: self.abandon() },
        }
    }

    /// Gives the registrations in the order in which they are to be cancelled when the stream of
    /// events is dropped: from the first to the last.
    pub fn finish(self) -> (registrations: Vec<(EventSource, I)>)
        ensures
            registrations@ == self.done(),
    {
        self.registrations
    }

    /// Gives the registrations in the order in which they are to be cancelled when a source
    /// refuses to register the feed: from the last to the first.
    pub fn abandon(self) -> (registrations: Vec<(EventSource, I)>)
        ensures
            registrations@ == self.done().reverse(),
    {
        let ghost all = self.registrations@;
        let mut rest = self.registrations;
        let mut reversed: Vec<(EventSource, I)> = Vec::new();
        while rest.len() > 0
            invariant
                rest.len() + reversed.len() == all.len(),
                rest@ == all.take(rest.len() as int),
                forall|i: int| 0 <= i < reversed.len() ==> reversed@[i] == all[all.len() - 1 - i],
            decreases rest.len(),
        {
            match rest.pop() {
                Some(registration) => {
                    proof {
                        assert(rest@ =~= all.take(rest.len() as int));
                    }
                    reversed.push(registration);
                },
                None => {},
            }
        }
        proof {
            assert(reversed@ =~= all.reverse());
        }
        reversed
    }
}

/// The feed registers with exactly the sources that exist, and with each of them once.
pub proof fn feed_has_every_source_once(config: FeedConfig, source: EventSource)
    ensures
        config.sources().contains(source) <==> config.provides(source),
        config.sources().no_duplicates(),
{
    let sources = config.sources();
    if config.provides(source) {
        let n: int = if config.recording_enabled {
            6
        } else {
            2
        };
        let m: int = n + if config.timeshift_enabled {
            1int
        } else {
            0int
        };
        let i: int = match source {
            EventSource::Tuner => 0,
            EventSource::EpgProgramsUpdated => 1,
            EventSource::RecordingStarted => 2,
            EventSource::RecordingStopped => 3,
            EventSource::RecordingFailed => 4,
            EventSource::RecordingRescheduled => 5,
            EventSource::Timeshift => n,
            EventSource::OnairProgramChanged => m,
        };
        assert(sources[i] == source);
    }
}

/// A feed ends with an error if and only if a source that it asks refuses it. The error is that of
/// the first such source, which is the last to be asked; what was registered before it is cancelled
/// from the last to the first. Only sources that exist are asked, each once and in their order.
pub proof fn feed_ends_with_the_first_refusal<I, E>(
    config: FeedConfig,
    replies: Seq<Result<I, E>>,
)
    requires
        answered(config.sources(), replies),
    ensures
        ({
            let sources = config.sources();
            let feed = after_replies(sources, replies);
            &&& replies.len() <= sources.len()
            &&& forall|i: int| 0 <= i < replies.len() ==> config.provides(#[trigger] sources[i])
            &&& forall|i: int| 0 <= i < replies.len() - 1 ==> (#[trigger] replies[i]) is Ok
            &&& feed is Refused <==> exists|i: int|
                0 <= i < replies.len() && (#[trigger] replies[i]) is Err
            &&& feed matches FeedView::Refused { error, registrations } ==> {
                &&& replies.last() == Err::<I, E>(error)
                &&& next_source_of(sources, feed) is None
                &&& registrations.len() == replies.len() - 1
                &&& forall|i: int|
                    0 <= i < registrations.len() ==> #[trigger] registrations[i] == (
                        sources[registrations.len() - 1 - i],
                        replies[registrations.len() - 1 - i]->Ok_0,
                    )
            }
            &&& feed matches FeedView::Registering(done) ==> {
                &&& next_source_of(sources, feed) is None <==> replies.len() == sources.len()
                &&& done.len() == replies.len()
                &&& forall|i: int|
                    0 <= i < done.len() ==> #[trigger] done[i] == (sources[i], replies[i]->Ok_0)
            }
        }),
{
    lemma_replies(config.sources(), replies);
    assert forall|i: int| 0 <= i < replies.len() implies config.provides(
        #[trigger] config.sources()[i],
    ) by {
        feed_has_every_source_once(config, config.sources()[i]);
    }
}

proof fn lemma_replies<I, E>(sources: Seq<EventSource>, replies: Seq<Result<I, E>>)
    requires
        answered(sources, replies),
    ensures
        replies.len() <= sources.len(),
        forall|i: int| 0 <= i < replies.len() - 1 ==> (#[trigger] replies[i]) is Ok,
        match after_replies(sources, replies) {
            FeedView::Registering(done) => {
                &&& forall|i: int| 0 <= i < replies.len() ==> (#[trigger] replies[i]) is Ok
                &&& done.len() == replies.len()
                &&& forall|i: int|
                    0 <= i < done.len() ==> #[trigger] done[i] == (sources[i], replies[i]->Ok_0)
            },
            FeedView::Refused { error, registrations } => {
                &&& replies.len() > 0
                &&& replies.last() == Err::<I, E>(error)
                &&& registrations.len() == replies.len() - 1
                &&& forall|i: int|
                    0 <= i < registrations.len() ==> #[trigger] registrations[i] == (
                        sources[registrations.len() - 1 - i],
                        replies[registrations.len() - 1 - i]->Ok_0,
                    )
            },
        },
    decreases replies.len(),
{
    if replies.len() > 0 {
        let earlier = replies.drop_last();
        lemma_replies(sources, earlier);
        assert forall|i: int| 0 <= i < replies.len() - 1 implies (#[trigger] replies[i]) is Ok by {
            assert(earlier[i] == replies[i]);
        }
    }
}

/// Events carry what happened: what is sent of a timeshift recorder holds the recorder, the record,
/// and the start, the end and the duration of the timeline.
pub proof fn timeshift_events_carry_what_happened(
    recorder: String,
    record_id: TimeshiftRecordId,
    start_time: Option<JstTime>,
    end_time: Option<JstTime>,
    duration: Option<i64>,
)
    ensures
        <Event as FromSpec<TimeshiftEvent>>::obeys_from_spec(),
        ({
            let sent = |val: TimeshiftEvent| <Event as FromSpec<TimeshiftEvent>>::from_spec(val);
            &&& sent(TimeshiftEvent::Timeline { recorder, start_time, end_time, duration }).data
                == (EventData::TimeshiftTimeline { recorder, start_time, end_time, duration })
            &&& sent(TimeshiftEvent::Started { recorder }).data == (EventData::TimeshiftStarted {
                recorder,
            })
            &&& sent(TimeshiftEvent::Stopped { recorder }).data == (EventData::TimeshiftStopped {
                recorder,
            })
            &&& sent(TimeshiftEvent::RecordStarted { recorder, record_id }).data == (
            EventData::TimeshiftRecordStarted { recorder, record_id })
            &&& sent(TimeshiftEvent::RecordUpdated { recorder, record_id }).data == (
            EventData::TimeshiftRecordUpdated { recorder, record_id })
            &&& sent(TimeshiftEvent::RecordEnded { recorder, record_id }).data == (
            EventData::TimeshiftRecordEnded { recorder, record_id })
        }),
{
}

/// What is sent of tuners, of the guide, of recordings and of on-air programs holds what happened.
pub proof fn events_carry_what_happened(
    tuner_index: usize,
    programs: ProgramsUpdated,
    started: RecordingStarted,
    stopped: RecordingStopped,
    failed: RecordingFailed,
    rescheduled: RecordingRescheduled,
    onair: OnairProgramChanged,
)
    ensures
        <Event as FromSpec<TunerEvent>>::obeys_from_spec(),
        <Event as FromSpec<ProgramsUpdated>>::obeys_from_spec(),
        <Event as FromSpec<RecordingStarted>>::obeys_from_spec(),
        <Event as FromSpec<RecordingStopped>>::obeys_from_spec(),
        <Event as FromSpec<RecordingFailed>>::obeys_from_spec(),
        <Event as FromSpec<RecordingRescheduled>>::obeys_from_spec(),
        <Event as FromSpec<OnairProgramChanged>>::obeys_from_spec(),
        <Event as FromSpec<TunerEvent>>::from_spec(TunerEvent::StatusChanged(tuner_index)).data == (
        EventData::TunerStatusChanged { tuner_index }),
        <Event as FromSpec<ProgramsUpdated>>::from_spec(programs).data == (
        EventData::EpgProgramsUpdated { service_id: programs.service_id }),
        <Event as FromSpec<RecordingStarted>>::from_spec(started).data == (
        EventData::RecordingStarted { program_id: started.program_id }),
        <Event as FromSpec<RecordingStopped>>::from_spec(stopped).data == (
        EventData::RecordingStopped { program_id: stopped.program_id }),
        <Event as FromSpec<RecordingFailed>>::from_spec(failed).data == (
        EventData::RecordingFailed { program_id: failed.program_id, reason: failed.reason }),
        <Event as FromSpec<RecordingRescheduled>>::from_spec(rescheduled).data == (
        EventData::RecordingRescheduled { program_id: rescheduled.program_id }),
        <Event as FromSpec<OnairProgramChanged>>::from_spec(onair).data
            matches EventData::OnairProgramChanged { service_id } && service_id.value
            == onair.service_triple.nid * 100_000 + onair.service_triple.sid,
{
}

/// Two different happenings are never sent as the same event.
pub proof fn different_happenings_are_sent_differently(
    timeshift1: TimeshiftEvent,
    timeshift2: TimeshiftEvent,
    tuner1: TunerEvent,
    tuner2: TunerEvent,
    failed1: RecordingFailed,
    failed2: RecordingFailed,
)
    ensures
        <Event as FromSpec<TimeshiftEvent>>::from_spec(timeshift1) == <Event as FromSpec<
            TimeshiftEvent,
        >>::from_spec(timeshift2) ==> timeshift1 == timeshift2,
        <Event as FromSpec<TunerEvent>>::from_spec(tuner1) == <Event as FromSpec<
            TunerEvent,
        >>::from_spec(tuner2) ==> tuner1 == tuner2,
        <Event as FromSpec<RecordingFailed>>::from_spec(failed1) == <Event as FromSpec<
            RecordingFailed,
        >>::from_spec(failed2) ==> failed1 == failed2,
{
}

/// The place of a source in the order in which a feed registers.
pub open spec fn source_rank(source: EventSource) -> int {
    match source {
        EventSource::Tuner => 0,
        EventSource::EpgProgramsUpdated => 1,
        EventSource::RecordingStarted => 2,
        EventSource::RecordingStopped => 3,
        EventSource::RecordingFailed => 4,
        EventSource::RecordingRescheduled => 5,
        EventSource::Timeshift => 6,
        EventSource::OnairProgramChanged => 7,
    }
}

/// A feed registers with its sources in one order, whichever of them exist: the tuners and the guide
/// come first, and a source of recordings, timeshift or on-air programs exists exactly if its part
/// of the server is in use.
pub proof fn sources_come_in_one_order(config: FeedConfig, i: int, j: int)
    ensures
        config.sources().len() == 2 + (if config.recording_enabled {
            4int
        } else {
            0int
        }) + (if config.timeshift_enabled {
            1int
        } else {
            0int
        }) + (if config.has_onair_program_trackers {
            1int
        } else {
            0int
        }),
        0 <= i < j < config.sources().len() ==> source_rank(config.sources()[i]) < source_rank(
            config.sources()[j],
        ),
        config.sources()[0] is Tuner,
        config.sources()[1] is EpgProgramsUpdated,
        config.sources().contains(EventSource::RecordingStarted) <==> config.recording_enabled,
        config.sources().contains(EventSource::RecordingStopped) <==> config.recording_enabled,
        config.sources().contains(EventSource::RecordingFailed) <==> config.recording_enabled,
        config.sources().contains(EventSource::RecordingRescheduled) <==> config.recording_enabled,
        config.sources().contains(EventSource::Timeshift) <==> config.timeshift_enabled,
        config.sources().contains(EventSource::OnairProgramChanged)
            <==> config.has_onair_program_trackers,
{
    feed_has_every_source_once(config, EventSource::RecordingStarted);
    feed_has_every_source_once(config, EventSource::RecordingStopped);
    feed_has_every_source_once(config, EventSource::RecordingFailed);
    feed_has_every_source_once(config, EventSource::RecordingRescheduled);
    feed_has_every_source_once(config, EventSource::Timeshift);
    feed_has_every_source_once(config, EventSource::OnairProgramChanged);
}

/// The registrations of a feed are cancelled in their order when its stream is dropped, and in the
/// reverse order when it is given up, each of them once.
pub proof fn registrations_are_all_cancelled<I>(
    subscription: EventSubscription<I>,
    finished: Vec<(EventSource, I)>,
    abandoned: Vec<(EventSource, I)>,
    i: int,
)
    requires
        call_ensures(EventSubscription::<I>::finish, (subscription,), finished),
        call_ensures(EventSubscription::<I>::abandon, (subscription,), abandoned),
    ensures
        finished@.len() == subscription.done().len(),
        abandoned@.len() == subscription.done().len(),
        0 <= i < finished@.len() ==> finished@[i] == subscription.done()[i],
        0 <= i < finished@.len() ==> abandoned@[finished@.len() - 1 - i] == finished@[i],
{
}

/// A feed starts with nothing registered, asks the sources in their order, and remembers each under
/// its own source.
pub proof fn feed_asks_its_sources_in_order<I>(
    config: FeedConfig,
    fresh: EventSubscription<I>,
    subscription: &mut EventSubscription<I>,
    source: Option<EventSource>,
    id: I,
)
    requires
        call_ensures(EventSubscription::<I>::new, (&config,), fresh),
        old(subscription).done().len() < old(subscription).all().len(),
        call_ensures(EventSubscription::<I>::next_source, (&*old(subscription),), source),
        call_ensures(EventSubscription::<I>::register, (subscription, id), ()),
    ensures
        fresh.done().len() == 0,
        fresh.all() == config.sources(),
        source == Some(old(subscription).all()[old(subscription).done().len() as int]),
        final(subscription).all() == old(subscription).all(),
        final(subscription).done().len() == old(subscription).done().len() + 1,
        final(subscription).done().last() == (source->0, id),
        final(subscription).done().drop_last() == old(subscription).done(),
{
    assert(final(subscription).done().drop_last() =~= old(subscription).done());
}

/// A refused feed ends with the error of the source that refused it, and cancels what it had
/// registered from the last to the first.
pub proof fn refused_feed_ends_with_the_error<I, E>(
    subscription: EventSubscription<I>,
    id: I,
    refusal: E,
    registered: FeedStep<I, E>,
    refused: FeedStep<I, E>,
)
    requires
        call_ensures(EventSubscription::<I>::step::<E>, (subscription, Ok::<I, E>(id)), registered),
        call_ensures(
            EventSubscription::<I>::step::<E>,
            (subscription, Err::<I, E>(refusal)),
            refused,
        ),
    ensures
        registered matches FeedStep::Continue(next) && next.all() == subscription.all()
            && next.done() == subscription.done().push(
            (subscription.all()[subscription.done().len() as int], id),
        ),
        refused matches FeedStep::Refused { error, registrations } && error == refusal
            && registrations@ == subscription.done().reverse(),
{
}

} // verus!
