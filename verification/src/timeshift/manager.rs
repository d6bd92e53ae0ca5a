//! The timeshift manager, which keeps the recorders.

use crate::config::{Config, TimeshiftConfig};
use crate::epg::{program_of_event, EitEvent, EpgService, EpgServiceView, EpgServices};
use crate::error::MirakcError;
use crate::models::{EventQuad, TimeshiftRecordId};
use crate::text::same_text;
use crate::time::JstTime;
use crate::timeshift::activation::{
    make_session, session_of, TimeshiftActivation, TimeshiftActivationView,
};
use crate::timeshift::message::{
    QueryTimeshiftRecordMessage, QueryTimeshiftRecorderMessage, QueryTimeshiftRecordsMessage,
    TimeshiftChunkMessage, TimeshiftEventMessage, TimeshiftMessage,
};
use crate::timeshift::record::{
    bytes_between, TimeshiftPoint, TimeshiftRecord, TimeshiftRecordModel,
};
use crate::timeshift::recorder::{
    new_recorder, TimeshiftRecorder, TimeshiftRecorderModel, TimeshiftRecorderSession,
    TimeshiftRecorderView,
};
use crate::timeshift::records::{find_record, get_record, key_index, lemma_key_index};
use crate::timeshift::source::{TimeshiftRecordStreamSource, TimeshiftStreamSource};
use std::sync::Arc;
use vstd::prelude::*;

verus! {

/// The manager of the timeshift recorders. `A` is the address of the tuner manager, and `T` the
/// trigger which stops a tuner's stream when it is dropped.
pub struct TimeshiftManager<A, T> {
    pub config: Arc<Config>,
    pub tuner_manager: A,
    /// The recorders, in the order in which they were first activated.
    pub recorders: Vec<TimeshiftRecorder<T>>,
}

impl<A, T> View for TimeshiftManager<A, T> {
    type V = Seq<TimeshiftRecorderView<T>>;

    open spec fn view(&self) -> Seq<TimeshiftRecorderView<T>> {
        views_of(self.recorders@)
    }
}

/// What recorders are made of.
pub open spec fn views_of<T>(recorders: Seq<TimeshiftRecorder<T>>) -> Seq<
    TimeshiftRecorderView<T>,
> {
    recorders.map_values(|recorder: TimeshiftRecorder<T>| recorder@)
}

/// The names of recorders.
pub open spec fn names_of<T>(recorders: Seq<TimeshiftRecorderView<T>>) -> Seq<Seq<char>> {
    recorders.map_values(|recorder: TimeshiftRecorderView<T>| recorder.name)
}

/// The index of the recorder with a name.
pub open spec fn index_of<T>(recorders: Seq<TimeshiftRecorderView<T>>, name: Seq<char>) -> Option<
    int,
> {
    names_of(recorders).index_of_first(name)
}

/// All of the recorders are valid, and no two have the same name.
pub open spec fn recorders_valid<T>(recorders: Seq<TimeshiftRecorderView<T>>) -> bool {
    &&& forall|i: int| 0 <= i < recorders.len() ==> (#[trigger] recorders[i]).valid()
    &&& forall|i: int, j: int|
        0 <= i < j < recorders.len() ==> (#[trigger] recorders[i]).name != (
        #[trigger] recorders[j]).name
}

/// The index of a name is that of a recorder with the name, and there is none only if no recorder
/// has it.
pub proof fn lemma_index_of<T>(recorders: Seq<TimeshiftRecorderView<T>>, name: Seq<char>)
    ensures
        match index_of(recorders, name) {
            Some(i) => 0 <= i < recorders.len() && recorders[i].name == name && forall|j: int|
                0 <= j < i ==> (#[trigger] recorders[j]).name != name,
            None => forall|i: int|
                0 <= i < recorders.len() ==> (#[trigger] recorders[i]).name != name,
        },
{
    names_of(recorders).index_of_first_ensures(name);
    match index_of(recorders, name) {
        Some(i) => {
            assert forall|j: int| 0 <= j < i implies (#[trigger] recorders[j]).name != name by {
                assert(names_of(recorders)[j] == recorders[j].name);
            }
        },
        None => {
            assert forall|i: int| 0 <= i < recorders.len() implies (#[trigger] recorders[i]).name
                != name by {
                assert(names_of(recorders)[i] == recorders[i].name);
            }
        },
    }
}

proof fn lemma_updated_valid<T>(
    recorders: Seq<TimeshiftRecorderView<T>>,
    i: int,
    recorder: TimeshiftRecorderView<T>,
)
    requires
        recorders_valid(recorders),
        0 <= i < recorders.len(),
        recorder.valid(),
        recorder.name == recorders[i].name,
    ensures
        recorders_valid(recorders.update(i, recorder)),
{
}

/// Changing one recorder changes its view alone, and keeps the recorders valid if it stays valid
/// under its name.
proof fn lemma_recorder_changed<T>(
    before: Seq<TimeshiftRecorder<T>>,
    after: Seq<TimeshiftRecorder<T>>,
    i: int,
)
    requires
        0 <= i < before.len(),
        after == before.update(i, after[i]),
    ensures
        views_of(after) == views_of(before).update(i, after[i]@),
        recorders_valid(views_of(before)) && after[i]@.valid() && after[i]@.name == before[i]@.name
            ==> recorders_valid(views_of(after)),
{
    assert(views_of(after) =~= views_of(before).update(i, after[i]@));
    if recorders_valid(views_of(before)) && after[i]@.valid() && after[i]@.name
        == before[i]@.name {
        lemma_updated_valid(views_of(before), i, after[i]@);
    }
}

/// The recorders after a recording command has reported something.
pub open spec fn after_message<T>(
    recorders: Seq<TimeshiftRecorderView<T>>,
    message: TimeshiftMessage,
) -> Seq<TimeshiftRecorderView<T>>
    recommends
        index_of(recorders, message.recorder_name()) is Some,
{
    let i = index_of(recorders, message.recorder_name())->0;
    match message {
        TimeshiftMessage::Start(_) => recorders,
        TimeshiftMessage::Stop(_) => recorders,
        TimeshiftMessage::Chunk(message) => recorders.update(
            i,
            recorders[i].after_chunk(message.chunk),
        ),
        TimeshiftMessage::EventStart(message) => recorders.update(
            i,
            recorders[i].after_event_start(message.spec_quad(), message.event, message.record),
        ),
        TimeshiftMessage::EventUpdate(message) => recorders.update(
            i,
            recorders[i].after_event_update(message.spec_quad(), message.event, message.record),
        ),
        TimeshiftMessage::EventEnd(message) => recorders.update(
            i,
            recorders[i].after_event_end(message.spec_quad(), message.event, message.record),
        ),
    }
}

/// A report of a recording command can be taken in: it comes from a known recorder, and a chunk in
/// it fits into the ring of the recorder.
pub open spec fn fits_message<T>(
    recorders: Seq<TimeshiftRecorderView<T>>,
    message: TimeshiftMessage,
) -> bool {
    index_of(recorders, message.recorder_name()) matches Some(i) && (message matches
        TimeshiftMessage::Chunk(message) ==> recorders[i].can_take_chunk(message.chunk))
}

/// The recorders after reports, one after another.
pub open spec fn after_messages<T>(
    recorders: Seq<TimeshiftRecorderView<T>>,
    messages: Seq<TimeshiftMessage>,
) -> Seq<TimeshiftRecorderView<T>>
    decreases messages.len(),
{
    if messages.len() == 0 {
        recorders
    } else {
        after_message(after_messages(recorders, messages.drop_last()), messages.last())
    }
}

/// Reports can be taken in one after another.
pub open spec fn fits_messages<T>(
    recorders: Seq<TimeshiftRecorderView<T>>,
    messages: Seq<TimeshiftMessage>,
) -> bool
    decreases messages.len(),
{
    messages.len() > 0 ==> {
        &&& fits_messages(recorders, messages.drop_last())
        &&& fits_message(after_messages(recorders, messages.drop_last()), messages.last())
    }
}

/// The points at which the chunks of a recorder start, according to reports.
pub open spec fn chunk_starts(messages: Seq<TimeshiftMessage>, name: Seq<char>) -> Seq<
    TimeshiftPoint,
>
    decreases messages.len(),
{
    if messages.len() == 0 {
        Seq::empty()
    } else {
        let earlier = chunk_starts(messages.drop_last(), name);
        match messages.last() {
            TimeshiftMessage::Chunk(message) => if message.id@ == name {
                earlier.push(message.chunk)
            } else {
                earlier
            },
            _ => earlier,
        }
    }
}

/// The last `count` of points, or all if there are fewer.
pub open spec fn newest(points: Seq<TimeshiftPoint>, count: int) -> Seq<TimeshiftPoint> {
    if points.len() <= count {
        points
    } else {
        points.skip(points.len() - count)
    }
}

/// The session of a recorder whose service is available.
pub open spec fn wanted_session<T>(session: TimeshiftRecorderSession<T>) ->
    TimeshiftRecorderSession<T> {
    if session is Inactive {
        TimeshiftRecorderSession::Activating
    } else {
        session
    }
}

/// The recorders after one of them has been brought in line with the available services: it
/// records its service from now on, or it stops if the service is not available.
pub open spec fn aligned<T>(
    recorders: Seq<TimeshiftRecorderView<T>>,
    name: Seq<char>,
    config: TimeshiftConfig,
    service: Option<EpgServiceView>,
) -> Seq<TimeshiftRecorderView<T>> {
    match (index_of(recorders, name), service) {
        (Some(i), Some(service)) => recorders.update(
            i,
            TimeshiftRecorderView {
                service,
                session: wanted_session(recorders[i].session),
                ..recorders[i]
            },
        ),
        (None, Some(service)) => recorders.push(
            TimeshiftRecorderView {
                session: TimeshiftRecorderSession::Activating,
                ..new_recorder(name, config, service)
            },
        ),
        (Some(i), None) => recorders.update(
            i,
            TimeshiftRecorderView {
                session: TimeshiftRecorderSession::Inactive,
                ..recorders[i]
            },
        ),
        (None, None) => recorders,
    }
}

/// A recorder has to be activated: its service is available, and it is inactive or new.
pub open spec fn needs_activation<T>(
    recorders: Seq<TimeshiftRecorderView<T>>,
    name: Seq<char>,
    service: Option<EpgServiceView>,
) -> bool {
    &&& service is Some
    &&& index_of(recorders, name) matches Some(i) ==> recorders[i].session is Inactive
}

/// The recorders after all that are configured have been brought in line, one after another.
pub open spec fn all_aligned<T>(
    recorders: Seq<TimeshiftRecorderView<T>>,
    configs: Seq<(String, TimeshiftConfig)>,
    services: EpgServices,
) -> Seq<TimeshiftRecorderView<T>>
    decreases configs.len(),
{
    if configs.len() == 0 {
        recorders
    } else {
        let last = configs.last();
        aligned(
            all_aligned(recorders, configs.drop_last(), services),
            last.0@,
            last.1,
            services.service(last.1.service_triple),
        )
    }
}

/// The recorders that have to be activated when all that are configured are brought in line.
pub open spec fn needed_activations<T>(
    recorders: Seq<TimeshiftRecorderView<T>>,
    configs: Seq<(String, TimeshiftConfig)>,
    services: EpgServices,
) -> Seq<TimeshiftActivationView>
    decreases configs.len(),
{
    if configs.len() == 0 {
        Seq::empty()
    } else {
        let last = configs.last();
        let service = services.service(last.1.service_triple);
        let earlier = needed_activations(recorders, configs.drop_last(), services);
        if needs_activation(
            all_aligned(recorders, configs.drop_last(), services),
            last.0@,
            service,
        ) {
            earlier.push(
                TimeshiftActivationView { name: last.0@, config: last.1, service: service->0 },
            )
        } else {
            earlier
        }
    }
}

/// The recorders after an activation of one of them has come to an end.
pub open spec fn activated<T>(
    recorders: Seq<TimeshiftRecorderView<T>>,
    name: Seq<char>,
    outcome: Result<T, MirakcError>,
) -> Seq<TimeshiftRecorderView<T>> {
    match index_of(recorders, name) {
        Some(i) => recorders.update(
            i,
            TimeshiftRecorderView { session: session_of(outcome), ..recorders[i] },
        ),
        None => recorders,
    }
}

/// The recorders after activations have come to an end, one after another.
pub open spec fn all_activated<T>(
    recorders: Seq<TimeshiftRecorderView<T>>,
    outcomes: Seq<(String, Result<T, MirakcError>)>,
) -> Seq<TimeshiftRecorderView<T>>
    decreases outcomes.len(),
{
    if outcomes.len() == 0 {
        recorders
    } else {
        let last = outcomes.last();
        activated(all_activated(recorders, outcomes.drop_last()), last.0@, last.1)
    }
}

/// The characters of activations.
pub open spec fn activation_views(activations: Seq<TimeshiftActivation>) -> Seq<
    TimeshiftActivationView,
> {
    activations.map_values(|activation: TimeshiftActivation| activation@)
}

impl<A, T> TimeshiftManager<A, T> {
    /// The recorders are valid.
    pub open spec fn valid(self) -> bool {
        recorders_valid(self@)
    }

    /// A manager without recorders.
    pub fn new(config: Arc<Config>, tuner_manager: A) -> (manager: TimeshiftManager<A, T>)
        ensures
            manager.config == config,
            manager.tuner_manager == tuner_manager,
            manager@ == Seq::<TimeshiftRecorderView<T>>::empty(),
            manager.valid(),
    {
        let manager = TimeshiftManager { config, tuner_manager, recorders: Vec::new() };
        proof {
            assert(manager@ =~= Seq::<TimeshiftRecorderView<T>>::empty());
        }
        manager
    }

    /// Finds the recorder with a name.
    pub fn find(&self, name: &str) -> (index: Option<usize>)
        ensures
            match index {
                Some(i) => index_of(self@, name@) == Some(i as int) && i < self.recorders.len(),
                None => index_of(self@, name@) is None,
            },
    {
        proof {
            lemma_index_of(self@, name@);
        }
        let mut i: usize = 0;
        while i < self.recorders.len()
            invariant
                i <= self.recorders.len(),
                forall|j: int| 0 <= j < i ==> (#[trigger] self@[j]).name != name@,
                match index_of(self@, name@) {
                    Some(k) => 0 <= k < self@.len() && self@[k].name == name@ && forall|j: int|
                        0 <= j < k ==> (#[trigger] self@[j]).name != name@,
                    None => forall|k: int|
                        0 <= k < self@.len() ==> (#[trigger] self@[k]).name != name@,
                },
            decreases self.recorders.len() - i,
        {
            proof {
                assert(self@[i as int] == self.recorders@[i as int]@);
            }
            if same_text(self.recorders[i].name.as_str(), name) {
                return Some(i);
            }
            i += 1;
        }
        None
    }

    /// Tells clients of all the recorders.
    pub fn query_recorders(&self, now: JstTime) -> (models: Vec<TimeshiftRecorderModel>)
        ensures
            models@.len() == self@.len(),
            forall|i: int|
                0 <= i < self@.len() ==> (#[trigger] models@[i])@ == self@[i].model(now),
    {
        let mut models: Vec<TimeshiftRecorderModel> = Vec::new();
        let mut i: usize = 0;
        while i < self.recorders.len()
            invariant
                i <= self.recorders.len(),
                models@.len() == i,
                forall|j: int| 0 <= j < i ==> (#[trigger] models@[j])@ == self@[j].model(now),
            decreases self.recorders.len() - i,
        {
            models.push(self.recorders[i].get_model(now));
            i += 1;
        }
        models
    }

    /// Tells clients of a recorder.
    pub fn query_recorder(&self, message: &QueryTimeshiftRecorderMessage, now: JstTime) -> (model:
        Result<TimeshiftRecorderModel, MirakcError>)
        ensures
            match index_of(self@, message.name@) {
                Some(i) => model matches Ok(model) && model@ == self@[i].model(now),
                None => model == Err::<TimeshiftRecorderModel, MirakcError>(
                    MirakcError::RecordNotFound,
                ),
            },
    {
        match self.find(message.name.as_str()) {
            Some(i) => Ok(self.recorders[i].get_model(now)),
            None => Err(MirakcError::RecordNotFound),
        }
    }

    /// Tells clients of the records of a recorder.
    pub fn query_records(&self, message: &QueryTimeshiftRecordsMessage) -> (models: Result<
        Vec<TimeshiftRecordModel>,
        MirakcError,
    >)
        requires
            self.valid(),
            index_of(self@, message.recorder_name@) matches Some(i) ==> self@[i].records_fit(),
        ensures
            match index_of(self@, message.recorder_name@) {
                Some(i) => models matches Ok(models) && models@.map_values(
                    |model: TimeshiftRecordModel| model@,
                ) == self@[i].record_models(),
                None => models == Err::<Vec<TimeshiftRecordModel>, MirakcError>(
                    MirakcError::RecordNotFound,
                ),
            },
    {
        match self.find(message.recorder_name.as_str()) {
            Some(i) => {
                proof {
                    assert(self@[i as int].valid());
                }
                Ok(self.recorders[i].get_record_models())
            },
            None => Err(MirakcError::RecordNotFound),
        }
    }

    /// Tells clients of a record of a recorder.
    pub fn query_record(&self, message: &QueryTimeshiftRecordMessage) -> (model: Result<
        TimeshiftRecordModel,
        MirakcError,
    >)
        requires
            self.valid(),
            self.find_record(message.recorder_name@, message.record_id) matches Some((record, i))
                ==> record.fits(self@[i].config.spec_max_file_size()),
        ensures
            match self.find_record(message.recorder_name@, message.record_id) {
                Some((record, i)) => model matches Ok(model) && model@ == record.spec_model(
                    self@[i].config.spec_max_file_size(),
                ),
                None => model == Err::<TimeshiftRecordModel, MirakcError>(
                    MirakcError::RecordNotFound,
                ),
            },
    {
        match self.get_record(message.recorder_name.as_str(), message.record_id) {
            Some((record, i)) => {
                proof {
                    assert(self@[i as int].valid());
                }
                Ok(record.get_model(&self.recorders[i].config))
            },
            None => Err(MirakcError::RecordNotFound),
        }
    }

    /// A record of a recorder, and the index of the recorder.
    pub open spec fn find_record(self, recorder_name: Seq<char>, id: TimeshiftRecordId) -> Option<
        (TimeshiftRecord, int),
    > {
        match index_of(self@, recorder_name) {
            Some(i) => match find_record(self@[i].records, id.value) {
                Some(record) => Some((record, i)),
                None => None,
            },
            None => None,
        }
    }

    /// Finds a record of a recorder, and the index of the recorder.
    pub fn get_record(&self, recorder_name: &str, id: TimeshiftRecordId) -> (found: Option<
        (&TimeshiftRecord, usize),
    >)
        ensures
            match found {
                Some((record, i)) => self.find_record(recorder_name@, id) == Some(
                    (*record, i as int),
                ) && i < self.recorders.len(),
                None => self.find_record(recorder_name@, id) is None,
            },
    {
        match self.find(recorder_name) {
            Some(i) => match get_record(&self.recorders[i].records, id.value) {
                Some(record) => Some((record, i)),
                None => None,
            },
            None => None,
        }
    }

    /// Prepares a live stream of a recorder.
    pub fn create_live_stream_source(
        &self,
        recorder_name: &str,
        record_id: Option<TimeshiftRecordId>,
    ) -> (source: Result<TimeshiftStreamSource, MirakcError>)
        ensures
            match index_of(self@, recorder_name@) {
                Some(i) => match self@[i].live_point(record_id) {
                    Ok(point) => {
                        &&& source matches Ok(source)
                        &&& source.name@ == recorder_name@
                        &&& source.file == self@[i].config.file
                        &&& source.point == point
                    },
                    Err(error) => source == Err::<TimeshiftStreamSource, MirakcError>(error),
                },
                None => source == Err::<TimeshiftStreamSource, MirakcError>(
                    MirakcError::RecordNotFound,
                ),
            },
    {
        proof {
            lemma_index_of(self@, recorder_name@);
        }
        match self.find(recorder_name) {
            Some(i) => self.recorders[i].create_live_stream_source(record_id),
            None => Err(MirakcError::RecordNotFound),
        }
    }

    /// Prepares a stream of a record of a recorder.
    pub fn create_record_stream_source(
        &self,
        recorder_name: &str,
        record_id: TimeshiftRecordId,
        start_pos: Option<u64>,
    ) -> (source: Result<TimeshiftRecordStreamSource, MirakcError>)
        requires
            self.find_record(recorder_name@, record_id) matches Some((record, i))
                ==> record.can_stream(self@[i].config, start_pos),
        ensures
            match index_of(self@, recorder_name@) {
                Some(i) => match find_record(self@[i].records, record_id.value) {
                    Some(record) => source == record.spec_source(
                        self.recorders@[i].name,
                        self@[i].config,
                        start_pos,
                    ),
                    None => source == Err::<TimeshiftRecordStreamSource, MirakcError>(
                        MirakcError::ProgramNotFound,
                    ),
                },
                None => source == Err::<TimeshiftRecordStreamSource, MirakcError>(
                    MirakcError::RecordNotFound,
                ),
            },
    {
        match self.find(recorder_name) {
            Some(i) => self.recorders[i].create_record_stream_source(record_id, start_pos),
            None => Err(MirakcError::RecordNotFound),
        }
    }

    /// A report of a recording command can be taken in.
    pub open spec fn can_take(self, message: TimeshiftMessage) -> bool {
        fits_message(self@, message)
    }

    /// Tells whether a report of a recording command can be taken in.
    pub fn accepts(&self, message: &TimeshiftMessage) -> (accepted: bool)
        requires
            self.valid(),
        ensures
            accepted == self.can_take(*message),
    {
        match message {
            TimeshiftMessage::Start(message) => self.find(message.id.as_str()).is_some(),
            TimeshiftMessage::Stop(message) => self.find(message.id.as_str()).is_some(),
            TimeshiftMessage::Chunk(message) => match self.find(message.id.as_str()) {
                Some(i) => {
                    proof {
                        assert(self@[i as int].valid());
                    }
                    let recorder = &self.recorders[i];
                    message.chunk.pos % recorder.config.chunk_size as u64 == 0 && (
                    recorder.points.len() < recorder.config.max_chunks() || recorder.points.len()
                        >= 2)
                },
                None => false,
            },
            TimeshiftMessage::EventStart(message) => self.find(message.id.as_str()).is_some(),
            TimeshiftMessage::EventUpdate(message) => self.find(message.id.as_str()).is_some(),
            TimeshiftMessage::EventEnd(message) => self.find(message.id.as_str()).is_some(),
        }
    }

    /// Lends the recorder with a name, which can be changed.
    fn recorder_mut(&mut self, name: &str) -> (recorder: &mut TimeshiftRecorder<T>)
        requires
            index_of(old(self)@, name@) is Some,
        ensures
            recorder@ == old(self)@[index_of(old(self)@, name@)->0],
            final(self).config == old(self).config,
            final(self).tuner_manager == old(self).tuner_manager,
            final(self).recorders@ == old(self).recorders@.update(
                index_of(old(self)@, name@)->0,
                *final(recorder),
            ),
    {
        proof {
            lemma_index_of(self@, name@);
        }
        let i = match self.find(name) {
            Some(i) => i,
            None => 0,
        };
        &mut self.recorders[i]
    }

    /// Takes the start of a recording in, which changes nothing.
    pub fn start_recording(&mut self, name: &str)
        requires
            old(self).valid(),
            index_of(old(self)@, name@) is Some,
        ensures
            final(self).config == old(self).config,
            final(self).tuner_manager == old(self).tuner_manager,
            final(self)@ == old(self)@,
            final(self).valid(),
    {
        let ghost before = self.recorders@;
        let ghost i = index_of(self@, name@)->0;
        proof {
            lemma_index_of(self@, name@);
            assert(self@[i].valid());
        }
        self.recorder_mut(name).start_recording();
        proof {
            lemma_recorder_changed(before, self.recorders@, i);
        }
    }

    /// Takes the end of a recording in, which changes nothing.
    pub fn stop_recording(&mut self, name: &str, reset: bool)
        requires
            old(self).valid(),
            index_of(old(self)@, name@) is Some,
        ensures
            final(self).config == old(self).config,
            final(self).tuner_manager == old(self).tuner_manager,
            final(self)@ == old(self)@,
            final(self).valid(),
    {
        let ghost before = self.recorders@;
        let ghost i = index_of(self@, name@)->0;
        proof {
            lemma_index_of(self@, name@);
            assert(self@[i].valid());
        }
        self.recorder_mut(name).stop_recording(reset);
        proof {
            lemma_recorder_changed(before, self.recorders@, i);
        }
    }

    /// Takes the start of a chunk of a recorder in.
    pub fn handle_chunk(&mut self, name: &str, point: TimeshiftPoint)
        requires
            old(self).valid(),
            index_of(old(self)@, name@) matches Some(i) && old(self)@[i].can_take_chunk(point),
        ensures
            final(self).config == old(self).config,
            final(self).tuner_manager == old(self).tuner_manager,
            final(self)@ == old(self)@.update(
                index_of(old(self)@, name@)->0,
                old(self)@[index_of(old(self)@, name@)->0].after_chunk(point),
            ),
            final(self).valid(),
    {
        let ghost before = self.recorders@;
        let ghost i = index_of(self@, name@)->0;
        proof {
            lemma_index_of(self@, name@);
            assert(self@[i].valid());
        }
        self.recorder_mut(name).handle_chunk(point);
        proof {
            lemma_recorder_changed(before, self.recorders@, i);
        }
    }

    /// Takes the start of a program of a recorder in.
    pub fn handle_event_start(
        &mut self,
        name: &str,
        quad: EventQuad,
        event: EitEvent,
        point: TimeshiftPoint,
    )
        requires
            old(self).valid(),
            index_of(old(self)@, name@) is Some,
        ensures
            final(self).config == old(self).config,
            final(self).tuner_manager == old(self).tuner_manager,
            final(self)@ == old(self)@.update(
                index_of(old(self)@, name@)->0,
                old(self)@[index_of(old(self)@, name@)->0].after_event_start(quad, event, point),
            ),
            final(self).valid(),
    {
        let ghost before = self.recorders@;
        let ghost i = index_of(self@, name@)->0;
        proof {
            lemma_index_of(self@, name@);
            assert(self@[i].valid());
        }
        self.recorder_mut(name).handle_event_start(quad, event, point);
        proof {
            lemma_recorder_changed(before, self.recorders@, i);
        }
    }

    /// Takes the progress of a program of a recorder in.
    pub fn handle_event_update(
        &mut self,
        name: &str,
        quad: EventQuad,
        event: EitEvent,
        point: TimeshiftPoint,
    )
        requires
            old(self).valid(),
            index_of(old(self)@, name@) is Some,
        ensures
            final(self).config == old(self).config,
            final(self).tuner_manager == old(self).tuner_manager,
            final(self)@ == old(self)@.update(
                index_of(old(self)@, name@)->0,
                old(self)@[index_of(old(self)@, name@)->0].after_event_update(quad, event, point),
            ),
            final(self).valid(),
    {
        let ghost before = self.recorders@;
        let ghost i = index_of(self@, name@)->0;
        proof {
            lemma_index_of(self@, name@);
            assert(self@[i].valid());
        }
        self.recorder_mut(name).handle_event_update(quad, event, point);
        proof {
            lemma_recorder_changed(before, self.recorders@, i);
        }
    }

    /// Takes the end of a program of a recorder in.
    pub fn handle_event_end(
        &mut self,
        name: &str,
        quad: EventQuad,
        event: EitEvent,
        point: TimeshiftPoint,
    )
        requires
            old(self).valid(),
            index_of(old(self)@, name@) is Some,
        ensures
            final(self).config == old(self).config,
            final(self).tuner_manager == old(self).tuner_manager,
            final(self)@ == old(self)@.update(
                index_of(old(self)@, name@)->0,
                old(self)@[index_of(old(self)@, name@)->0].after_event_end(quad, event, point),
            ),
            final(self).valid(),
    {
        let ghost before = self.recorders@;
        let ghost i = index_of(self@, name@)->0;
        proof {
            lemma_index_of(self@, name@);
            assert(self@[i].valid());
        }
        self.recorder_mut(name).handle_event_end(quad, event, point);
        proof {
            lemma_recorder_changed(before, self.recorders@, i);
        }
    }

    /// Takes in what a recording command reports.
    pub fn handle(&mut self, message: TimeshiftMessage)
        requires
            old(self).valid(),
            old(self).can_take(message),
        ensures
            final(self).config == old(self).config,
            final(self).tuner_manager == old(self).tuner_manager,
            final(self)@ == after_message(old(self)@, message),
            final(self).valid(),
    {
        match message {
            TimeshiftMessage::Start(message) => {
                self.start_recording(message.id.as_str());
            },
            TimeshiftMessage::Stop(message) => {
                self.stop_recording(message.id.as_str(), message.reset);
            },
            TimeshiftMessage::Chunk(message) => {
                self.handle_chunk(message.id.as_str(), message.chunk);
            },
            TimeshiftMessage::EventStart(message) => {
                let quad = message.quad();
                self.handle_event_start(message.id.as_str(), quad, message.event, message.record);
            },
            TimeshiftMessage::EventUpdate(message) => {
                let quad = message.quad();
                self.handle_event_update(message.id.as_str(), quad, message.event, message.record);
            },
            TimeshiftMessage::EventEnd(message) => {
                let quad = message.quad();
                self.handle_event_end(message.id.as_str(), quad, message.event, message.record);
            },
        }
    }

    /// The configurations of all the recorders are valid.
    pub open spec fn configs_valid(self) -> bool {
        forall|i: int|
            0 <= i < self.config.timeshift@.len() ==> (
            #[trigger] self.config.timeshift@[i]).1.valid()
    }

    /// Brings the recorders in line with the services that are available now, and gives those
    /// that have to be activated.
    ///
    /// A recorder whose service is not available any more becomes inactive, which drops its stop
    /// trigger.
    pub fn handle_services_updated(&mut self, services: &EpgServices) -> (activations: Vec<
        TimeshiftActivation,
    >)
        requires
            old(self).valid(),
            old(self).configs_valid(),
        ensures
            final(self).config == old(self).config,
            final(self).tuner_manager == old(self).tuner_manager,
            final(self)@ == all_aligned(old(self)@, old(self).config.timeshift@, *services),
            final(self).valid(),
            activation_views(activations@) == needed_activations(
                old(self)@,
                old(self).config.timeshift@,
                *services,
            ),
    {
        let mut activations: Vec<TimeshiftActivation> = Vec::new();
        let ghost configs = self.config.timeshift@;
        let ghost before = self@;
        let mut i: usize = 0;
        proof {
            assert(configs.take(0) =~= Seq::empty());
            assert(activation_views(activations@) =~= Seq::empty());
        }
        while i < self.config.timeshift.len()
            invariant
                i <= self.config.timeshift.len(),
                self.config == old(self).config,
                self.tuner_manager == old(self).tuner_manager,
                self.valid(),
                self.configs_valid(),
                configs == self.config.timeshift@,
                self@ == all_aligned(before, configs.take(i as int), *services),
                activation_views(activations@) == needed_activations(
                    before,
                    configs.take(i as int),
                    *services,
                ),
            decreases self.config.timeshift.len() - i,
        {
            let ghost old_activations = activations@;
            proof {
                assert(configs.take(i + 1).drop_last() =~= configs.take(i as int));
                assert(configs.take(i + 1).last() == configs[i as int]);
            }
            let triple = self.config.timeshift[i].1.service_triple;
            match services.get(triple) {
                Some(service) => {
                    if self.record_service(i, service) {
                        let activation = TimeshiftActivation {
                            name: self.config.timeshift[i].0.clone(),
                            config: self.config.timeshift[i].1.clone(),
                            service: service.clone(),
                        };
                        activations.push(activation);
                        proof {
                            assert(activation_views(activations@) =~= activation_views(
                                old_activations,
                            ).push(activation@));
                        }
                    }
                },
                None => {
                    self.stop_recorder(i);
                },
            }
            i += 1;
        }
        proof {
            assert(configs.take(i as int) =~= configs);
        }
        activations
    }

    /// Makes a recorder record a service, and tells whether it has to be activated.
    fn record_service(&mut self, index: usize, service: &EpgService) -> (activate: bool)
        requires
            old(self).valid(),
            index < old(self).config.timeshift.len(),
            old(self).config.timeshift@[index as int].1.valid(),
        ensures
            final(self).config == old(self).config,
            final(self).tuner_manager == old(self).tuner_manager,
            final(self)@ == aligned(
                old(self)@,
                old(self).config.timeshift@[index as int].0@,
                old(self).config.timeshift@[index as int].1,
                Some(service@),
            ),
            final(self).valid(),
            activate == needs_activation(
                old(self)@,
                old(self).config.timeshift@[index as int].0@,
                Some(service@),
            ),
    {
        let name = self.config.timeshift[index].0.clone();
        proof {
            lemma_index_of(self@, name@);
        }
        match self.find(name.as_str()) {
            Some(i) => {
                proof {
                    assert(self@[i as int] == self.recorders@[i as int]@);
                    assert(self@[i as int].valid());
                }
                let activate = self.recorders[i].is_inactive();
                self.recorders[i].service = service.clone();
                if activate {
                    self.recorders[i].session = TimeshiftRecorderSession::Activating;
                }
                let ghost new = TimeshiftRecorderView {
                    service: service@,
                    session: wanted_session(old(self)@[i as int].session),
                    ..old(self)@[i as int]
                };
                proof {
                    assert(self@ =~= old(self)@.update(i as int, new));
                    lemma_updated_valid(old(self)@, i as int, new);
                }
                activate
            },
            None => {
                let config = self.config.timeshift[index].1.clone();
                let mut recorder = TimeshiftRecorder::new(name, config, service.clone());
                recorder.session = TimeshiftRecorderSession::Activating;
                self.recorders.push(recorder);
                proof {
                    assert(self@ =~= old(self)@.push(recorder@));
                }
                true
            },
        }
    }

    /// Stops a recorder whose service is not available, if there is such a recorder.
    fn stop_recorder(&mut self, index: usize)
        requires
            old(self).valid(),
            index < old(self).config.timeshift.len(),
        ensures
            final(self).config == old(self).config,
            final(self).tuner_manager == old(self).tuner_manager,
            final(self)@ == aligned(
                old(self)@,
                old(self).config.timeshift@[index as int].0@,
                old(self).config.timeshift@[index as int].1,
                None,
            ),
            final(self).valid(),
    {
        let name = self.config.timeshift[index].0.clone();
        match self.find(name.as_str()) {
            Some(i) => {
                proof {
                    assert(self@[i as int] == self.recorders@[i as int]@);
                    assert(self@[i as int].valid());
                }
                self.recorders[i].session = TimeshiftRecorderSession::Inactive;
                let ghost new = TimeshiftRecorderView {
                    session: TimeshiftRecorderSession::Inactive,
                    ..old(self)@[i as int]
                };
                proof {
                    assert(self@ =~= old(self)@.update(i as int, new));
                    lemma_updated_valid(old(self)@, i as int, new);
                }
            },
            None => {},
        }
    }

    /// Takes in how the activations of recorders have come to an end. An outcome for a recorder
    /// that is not known changes nothing.
    pub fn handle_activated(&mut self, outcomes: Vec<(String, Result<T, MirakcError>)>)
        requires
            old(self).valid(),
        ensures
            final(self).config == old(self).config,
            final(self).tuner_manager == old(self).tuner_manager,
            final(self)@ == all_activated(old(self)@, outcomes@),
            final(self).valid(),
    {
        let mut rest = outcomes;
        let ghost before = self@;
        let ghost all = outcomes@;
        let ghost mut done: int = 0;
        proof {
            assert(all.take(0) =~= Seq::empty());
            assert(all.skip(0) =~= all);
        }
        while rest.len() > 0
            invariant
                0 <= done <= all.len(),
                rest@ == all.skip(done),
                self.config == old(self).config,
                self.tuner_manager == old(self).tuner_manager,
                self.valid(),
                self@ == all_activated(before, all.take(done)),
            decreases rest.len(),
        {
            let ghost current = self@;
            let (name, outcome) = rest.remove(0);
            proof {
                assert(rest@ =~= all.skip(done + 1));
                assert(all.take(done + 1).drop_last() =~= all.take(done));
                assert(all.take(done + 1).last() == all[done]);
                assert(all[done] == (name, outcome));
            }
            match self.find(name.as_str()) {
                Some(i) => {
                    proof {
                        assert(self@[i as int] == self.recorders@[i as int]@);
                        assert(self@[i as int].valid());
                    }
                    self.recorders[i].session = make_session(outcome);
                    let ghost new = TimeshiftRecorderView {
                        session: session_of(outcome),
                        ..current[i as int]
                    };
                    proof {
                        assert(self@ =~= current.update(i as int, new));
                        lemma_updated_valid(current, i as int, new);
                    }
                },
                None => {},
            }
            proof {
                done = done + 1;
            }
        }
        proof {
            assert(all.take(done) =~= all);
        }
    }
}

/// The recorder with a name.
pub open spec fn recorder_of<T>(
    recorders: Seq<TimeshiftRecorderView<T>>,
    name: Seq<char>,
) -> Option<TimeshiftRecorderView<T>> {
    match index_of(recorders, name) {
        Some(i) => Some(recorders[i]),
        None => None,
    }
}

/// A recorder after it has been brought in line with the available services.
pub open spec fn aligned_recorder<T>(
    recorder: Option<TimeshiftRecorderView<T>>,
    name: Seq<char>,
    config: TimeshiftConfig,
    service: Option<EpgServiceView>,
) -> Option<TimeshiftRecorderView<T>> {
    match (recorder, service) {
        (Some(recorder), Some(service)) => Some(
            TimeshiftRecorderView {
                service,
                session: wanted_session(recorder.session),
                ..recorder
            },
        ),
        (None, Some(service)) => Some(
            TimeshiftRecorderView {
                session: TimeshiftRecorderSession::Activating,
                ..new_recorder(name, config, service)
            },
        ),
        (Some(recorder), None) => Some(
            TimeshiftRecorderView { session: TimeshiftRecorderSession::Inactive, ..recorder },
        ),
        (None, None) => None,
    }
}

/// No two configurations have the same name.
pub open spec fn config_names_unique(configs: Seq<(String, TimeshiftConfig)>) -> bool {
    forall|i: int, j: int|
        0 <= i < j < configs.len() ==> (#[trigger] configs[i]).0@ != (#[trigger] configs[j]).0@
}

proof fn lemma_updated_recorder<T>(
    recorders: Seq<TimeshiftRecorderView<T>>,
    name: Seq<char>,
    new: TimeshiftRecorderView<T>,
    other: Seq<char>,
)
    requires
        index_of(recorders, name) is Some,
        new.name == name,
    ensures
        recorder_of(recorders.update(index_of(recorders, name)->0, new), other) == if other
            == name {
            Some(new)
        } else {
            recorder_of(recorders, other)
        },
{
    lemma_index_of(recorders, name);
    let i = index_of(recorders, name)->0;
    assert(names_of(recorders.update(i, new)) =~= names_of(recorders));
    lemma_index_of(recorders, other);
}

proof fn lemma_added_recorder<T>(
    recorders: Seq<TimeshiftRecorderView<T>>,
    new: TimeshiftRecorderView<T>,
    other: Seq<char>,
)
    requires
        index_of(recorders, new.name) is None,
    ensures
        recorder_of(recorders.push(new), other) == if other == new.name {
            Some(new)
        } else {
            recorder_of(recorders, other)
        },
{
    let all = recorders.push(new);
    lemma_index_of(recorders, new.name);
    lemma_index_of(recorders, other);
    lemma_index_of(all, other);
    assert(all[recorders.len() as int] == new);
    if let Some(k) = index_of(all, other) {
        if k < recorders.len() {
            assert(all[k] == recorders[k]);
        }
    }
    if let Some(k) = index_of(recorders, other) {
        assert(all[k] == recorders[k]);
        let m = index_of(all, other)->0;
        assert(m <= k);
        assert(all[m] == recorders[m]);
    }
}

proof fn lemma_aligned_recorder<T>(
    recorders: Seq<TimeshiftRecorderView<T>>,
    name: Seq<char>,
    config: TimeshiftConfig,
    service: Option<EpgServiceView>,
    other: Seq<char>,
)
    ensures
        recorder_of(aligned(recorders, name, config, service), other) == if other == name {
            aligned_recorder(recorder_of(recorders, name), name, config, service)
        } else {
            recorder_of(recorders, other)
        },
{
    lemma_index_of(recorders, name);
    match (index_of(recorders, name), service) {
        (Some(i), _) => {
            let new = aligned_recorder(recorder_of(recorders, name), name, config, service)->0;
            lemma_updated_recorder(recorders, name, new, other);
        },
        (None, Some(_)) => {
            let new = aligned_recorder(recorder_of(recorders, name), name, config, service)->0;
            lemma_added_recorder(recorders, new, other);
        },
        (None, None) => {},
    }
}

/// A recorder that is not configured is left alone when the services change.
pub proof fn other_recorders_are_left_alone<T>(
    recorders: Seq<TimeshiftRecorderView<T>>,
    configs: Seq<(String, TimeshiftConfig)>,
    services: EpgServices,
    name: Seq<char>,
)
    requires
        forall|i: int| 0 <= i < configs.len() ==> (#[trigger] configs[i]).0@ != name,
    ensures
        recorder_of(all_aligned(recorders, configs, services), name) == recorder_of(
            recorders,
            name,
        ),
    decreases configs.len(),
{
    if configs.len() > 0 {
        let last = configs.last();
        let earlier = configs.drop_last();
        other_recorders_are_left_alone(recorders, earlier, services, name);
        lemma_aligned_recorder(
            all_aligned(recorders, earlier, services),
            last.0@,
            last.1,
            services.service(last.1.service_triple),
            name,
        );
    }
}

/// Every configured recorder follows its service: it exists and is not inactive while the service
/// is available, and it is inactive, if it exists, while the service is not. What it has recorded
/// stays.
pub proof fn recorders_follow_their_services<T>(
    recorders: Seq<TimeshiftRecorderView<T>>,
    configs: Seq<(String, TimeshiftConfig)>,
    services: EpgServices,
    i: int,
)
    requires
        config_names_unique(configs),
        0 <= i < configs.len(),
    ensures
        ({
            let name = configs[i].0@;
            let service = services.service(configs[i].1.service_triple);
            let before = recorder_of(recorders, name);
            let after = recorder_of(all_aligned(recorders, configs, services), name);
            &&& after == aligned_recorder(before, name, configs[i].1, service)
            &&& service matches Some(service) ==> (after matches Some(recorder) && !(
            recorder.session is Inactive) && recorder.service == service)
            &&& service is None ==> (after matches Some(recorder) ==> recorder.session is Inactive)
            &&& before matches Some(old_recorder) ==> (after matches Some(recorder)
                && recorder.records == old_recorder.records && recorder.points
                == old_recorder.points)
        }),
    decreases configs.len(),
{
    let last = configs.last();
    let earlier = configs.drop_last();
    let name = configs[i].0@;
    lemma_aligned_recorder(
        all_aligned(recorders, earlier, services),
        last.0@,
        last.1,
        services.service(last.1.service_triple),
        name,
    );
    if i < configs.len() - 1 {
        assert(earlier[i] == configs[i]);
        recorders_follow_their_services(recorders, earlier, services, i);
    } else {
        assert forall|j: int| 0 <= j < earlier.len() implies (#[trigger] earlier[j]).0@ != name by {
            assert(earlier[j] == configs[j]);
        }
        other_recorders_are_left_alone(recorders, earlier, services, name);
    }
}

/// An activation is asked for exactly once: the same services, told again before the activations
/// have come to an end, ask for none, and change nothing.
pub proof fn services_told_again_change_nothing<T>(
    recorders: Seq<TimeshiftRecorderView<T>>,
    configs: Seq<(String, TimeshiftConfig)>,
    services: EpgServices,
    name: Seq<char>,
)
    requires
        config_names_unique(configs),
    ensures
        ({
            let after = all_aligned(recorders, configs, services);
            &&& needed_activations(after, configs, services) == Seq::<
                TimeshiftActivationView,
            >::empty()
            &&& recorder_of(all_aligned(after, configs, services), name) == recorder_of(
                after,
                name,
            )
        }),
{
    let after = all_aligned(recorders, configs, services);
    assert(configs.take(configs.len() as int) =~= configs);
    lemma_nothing_needed(recorders, configs, services, configs.len() as int);
    if exists|i: int| 0 <= i < configs.len() && (#[trigger] configs[i]).0@ == name {
        let i = choose|i: int| 0 <= i < configs.len() && (#[trigger] configs[i]).0@ == name;
        recorders_follow_their_services(recorders, configs, services, i);
        recorders_follow_their_services(after, configs, services, i);
    } else {
        other_recorders_are_left_alone(after, configs, services, name);
    }
}

proof fn lemma_nothing_needed<T>(
    recorders: Seq<TimeshiftRecorderView<T>>,
    configs: Seq<(String, TimeshiftConfig)>,
    services: EpgServices,
    n: int,
)
    requires
        config_names_unique(configs),
        0 <= n <= configs.len(),
    ensures
        needed_activations(
            all_aligned(recorders, configs, services),
            configs.take(n),
            services,
        ) == Seq::<TimeshiftActivationView>::empty(),
    decreases n,
{
    if n > 0 {
        lemma_nothing_needed(recorders, configs, services, n - 1);
        let after = all_aligned(recorders, configs, services);
        let taken = configs.take(n);
        assert(taken.drop_last() =~= configs.take(n - 1));
        let last = taken.last();
        assert(last == configs[n - 1]);
        assert forall|j: int| 0 <= j < n - 1 implies (#[trigger] configs.take(n - 1)[j]).0@
            != last.0@ by {
            assert(configs.take(n - 1)[j] == configs[j]);
        }
        other_recorders_are_left_alone(after, configs.take(n - 1), services, last.0@);
        recorders_follow_their_services(recorders, configs, services, n - 1);
    }
}

/// Every activation that is asked for is that of a configured recorder which waits for it, with
/// the configuration and the service that are to be recorded.
pub proof fn activations_are_awaited<T>(
    recorders: Seq<TimeshiftRecorderView<T>>,
    configs: Seq<(String, TimeshiftConfig)>,
    services: EpgServices,
    k: int,
)
    requires
        config_names_unique(configs),
        0 <= k < needed_activations(recorders, configs, services).len(),
    ensures
        ({
            let activation = needed_activations(recorders, configs, services)[k];
            &&& recorder_of(all_aligned(recorders, configs, services), activation.name) matches Some(
                recorder,
            )
            &&& recorder.session is Activating
            &&& recorder.service == activation.service
            &&& exists|i: int|
                0 <= i < configs.len() && (#[trigger] configs[i]).0@ == activation.name
                    && configs[i].1 == activation.config
        }),
    decreases configs.len(),
{
    let last = configs.last();
    let earlier = configs.drop_last();
    let before = all_aligned(recorders, earlier, services);
    let service = services.service(last.1.service_triple);
    let activation = needed_activations(recorders, configs, services)[k];
    lemma_aligned_recorder(before, last.0@, last.1, service, activation.name);
    if k < needed_activations(recorders, earlier, services).len() {
        activations_are_awaited(recorders, earlier, services, k);
        let i = choose|i: int|
            0 <= i < earlier.len() && (#[trigger] earlier[i]).0@ == activation.name && earlier[i].1
                == activation.config;
        assert(configs[i] == earlier[i]);
    } else {
        assert(configs[configs.len() - 1] == last);
    }
}

/// An activation settles its recorder: it is active if the activation succeeded, and inactive if
/// it failed. What the recorder has recorded stays.
pub proof fn activations_settle_their_recorders<T>(
    recorders: Seq<TimeshiftRecorderView<T>>,
    outcomes: Seq<(String, Result<T, MirakcError>)>,
    i: int,
)
    requires
        0 <= i < outcomes.len(),
        forall|j: int| i < j < outcomes.len() ==> (#[trigger] outcomes[j]).0@ != outcomes[i].0@,
    ensures
        ({
            let name = outcomes[i].0@;
            recorder_of(recorders, name) matches Some(before) ==> {
                &&& recorder_of(all_activated(recorders, outcomes), name) matches Some(after)
                &&& after.session == session_of(outcomes[i].1)
                &&& after.session is Active <==> outcomes[i].1 is Ok
                &&& after.session is Inactive <==> outcomes[i].1 is Err
                &&& after.records == before.records && after.points == before.points
            }
        }),
    decreases outcomes.len(),
{
    let name = outcomes[i].0@;
    let last = outcomes.last();
    let earlier = outcomes.drop_last();
    lemma_activated_keeps(recorders, earlier, name);
    let before = all_activated(recorders, earlier);
    lemma_index_of(before, last.0@);
    if let Some(k) = index_of(before, last.0@) {
        let new = TimeshiftRecorderView { session: session_of(last.1), ..before[k] };
        lemma_updated_recorder(before, last.0@, new, name);
    }
    if i < outcomes.len() - 1 {
        assert(earlier[i] == outcomes[i]);
        assert forall|j: int| i < j < earlier.len() implies (#[trigger] earlier[j]).0@
            != earlier[i].0@ by {
            assert(earlier[j] == outcomes[j]);
        }
        activations_settle_their_recorders(recorders, earlier, i);
        assert(outcomes[outcomes.len() - 1].0@ != name);
    }
}

proof fn lemma_activated_keeps<T>(
    recorders: Seq<TimeshiftRecorderView<T>>,
    outcomes: Seq<(String, Result<T, MirakcError>)>,
    name: Seq<char>,
)
    ensures
        match (recorder_of(recorders, name), recorder_of(all_activated(recorders, outcomes), name)) {
            (Some(before), Some(after)) => after.records == before.records && after.points
                == before.points,
            (None, None) => true,
            _ => false,
        },
    decreases outcomes.len(),
{
    if outcomes.len() > 0 {
        let last = outcomes.last();
        let earlier = outcomes.drop_last();
        lemma_activated_keeps(recorders, earlier, name);
        let before = all_activated(recorders, earlier);
        lemma_index_of(before, last.0@);
        if let Some(k) = index_of(before, last.0@) {
            let new = TimeshiftRecorderView { session: session_of(last.1), ..before[k] };
            lemma_updated_recorder(before, last.0@, new, name);
        }
    }
}

/// A report concerns its recorder alone.
pub proof fn reports_concern_their_recorder_alone<T>(
    recorders: Seq<TimeshiftRecorderView<T>>,
    message: TimeshiftMessage,
    other: Seq<char>,
)
    requires
        index_of(recorders, message.recorder_name()) is Some,
        other != message.recorder_name(),
    ensures
        recorder_of(after_message(recorders, message), other) == recorder_of(recorders, other),
{
    let name = message.recorder_name();
    lemma_index_of(recorders, name);
    let i = index_of(recorders, name)->0;
    let after = after_message(recorders, message);
    if !(message is Start) && !(message is Stop) {
        assert(after == recorders.update(i, after[i]));
        lemma_updated_recorder(recorders, name, after[i], other);
    }
}

/// After any reports, the chunks of a recorder are the newest of all that have been started, as
/// many as are offered.
pub proof fn newest_chunks_are_kept<T>(
    recorders: Seq<TimeshiftRecorderView<T>>,
    messages: Seq<TimeshiftMessage>,
    name: Seq<char>,
)
    requires
        recorders_valid(recorders),
        fits_messages(recorders, messages),
    ensures
        recorder_of(recorders, name) matches Some(before) ==> {
            &&& recorder_of(after_messages(recorders, messages), name) matches Some(after)
            &&& after.config == before.config
            &&& after.points == newest(
                before.points + chunk_starts(messages, name),
                before.config.spec_max_chunks(),
            )
        },
    decreases messages.len(),
{
    lemma_index_of(recorders, name);
    if let Some(before) = recorder_of(recorders, name) {
        let max = before.config.spec_max_chunks();
        assert(before.valid());
        if messages.len() == 0 {
            assert(before.points + chunk_starts(messages, name) =~= before.points);
        } else {
            let earlier = messages.drop_last();
            let message = messages.last();
            newest_chunks_are_kept(recorders, earlier, name);
            let current = after_messages(recorders, earlier);
            let all = before.points + chunk_starts(earlier, name);
            lemma_index_of(current, message.recorder_name());
            lemma_index_of(current, name);
            if message.recorder_name() != name {
                reports_concern_their_recorder_alone(current, message, name);
            } else {
                let i = index_of(current, name)->0;
                let after = after_message(current, message);
                if !(message is Start) && !(message is Stop) {
                    assert(after == current.update(i, after[i]));
                    lemma_updated_recorder(current, name, after[i], name);
                }
                if let TimeshiftMessage::Chunk(chunk) = message {
                    assert(before.points + chunk_starts(messages, name) =~= all.push(chunk.chunk));
                    assert(after[i].points =~= newest(all.push(chunk.chunk), max));
                }
            }
        }
    }
}

/// The start and then the end of a program make a complete record of it, which is the newest; the
/// start and then the progress make one that is still growing. Both go from the point of the first
/// report to that of the second, and tell of the program what the second tells.
pub proof fn reports_of_a_program_make_its_record<T>(
    recorders: Seq<TimeshiftRecorderView<T>>,
    first: TimeshiftEventMessage,
    second: TimeshiftEventMessage,
)
    requires
        first.id@ == second.id@,
        recorder_of(recorders, first.id@) matches Some(recorder) && find_record(
            recorder.records,
            first.record.timestamp.secs,
        ) is None,
    ensures
        ({
            let started = after_message(recorders, TimeshiftMessage::EventStart(first));
            let ended = after_message(started, TimeshiftMessage::EventEnd(second));
            let updated = after_message(started, TimeshiftMessage::EventUpdate(second));
            let record = TimeshiftRecord {
                id: TimeshiftRecordId { value: first.record.timestamp.secs },
                program: program_of_event(second.spec_quad(), second.event),
                start: first.record,
                end: second.record,
                recording: true,
            };
            let before = recorder_of(recorders, first.id@)->0.records;
            &&& record.program.quad == second.spec_quad()
            &&& recorder_of(ended, first.id@) matches Some(recorder) && recorder.records
                == before.push((record.id.value, TimeshiftRecord { recording: false, ..record }))
            &&& recorder_of(updated, first.id@) matches Some(recorder) && recorder.records
                == before.push((record.id.value, record))
        }),
{
    let name = first.id@;
    let i = index_of(recorders, name)->0;
    lemma_index_of(recorders, name);
    lemma_key_index(recorders[i].records, first.record.timestamp.secs);
    let started = after_message(recorders, TimeshiftMessage::EventStart(first));
    assert(started == recorders.update(i, started[i]));
    lemma_updated_recorder(recorders, name, started[i], name);
    lemma_index_of(started, name);
    let j = index_of(started, name)->0;
    let ended = after_message(started, TimeshiftMessage::EventEnd(second));
    assert(ended == started.update(j, ended[j]));
    lemma_updated_recorder(started, name, ended[j], name);
    let updated = after_message(started, TimeshiftMessage::EventUpdate(second));
    assert(updated == started.update(j, updated[j]));
    lemma_updated_recorder(started, name, updated[j], name);
    let records = started[j].records;
    assert(records.update(records.len() - 1, ended[j].records.last()) =~= ended[j].records);
    assert(ended[j].records =~= recorders[i].records.push(ended[j].records.last()));
    assert(updated[j].records =~= recorders[i].records.push(updated[j].records.last()));
}

/// A report changes its recorder as the recorder takes it in, and no other: it is the recorder that
/// the report names, and the event is that of the report. Reports that a recording has started or
/// stopped change nothing.
pub proof fn reports_reach_their_recorder<T>(
    recorders: Seq<TimeshiftRecorderView<T>>,
    message: TimeshiftMessage,
    i: int,
)
    requires
        0 <= i < recorders.len(),
        forall|j: int| 0 <= j < i ==> (#[trigger] recorders[j]).name != recorders[i].name,
        recorders[i].name == match message {
            TimeshiftMessage::Start(message) => message.id@,
            TimeshiftMessage::Stop(message) => message.id@,
            TimeshiftMessage::Chunk(message) => message.id@,
            TimeshiftMessage::EventStart(message) => message.id@,
            TimeshiftMessage::EventUpdate(message) => message.id@,
            TimeshiftMessage::EventEnd(message) => message.id@,
        },
    ensures
        ({
            let after = after_message(recorders, message);
            let quad = |message: TimeshiftEventMessage| EventQuad {
                nid: message.original_network_id,
                tsid: message.transport_stream_id,
                sid: message.service_id,
                eid: message.event.event_id,
            };
            &&& after.len() == recorders.len()
            &&& forall|j: int|
                0 <= j < recorders.len() && j != i ==> #[trigger] after[j] == recorders[j]
            &&& after[i] == match message {
                TimeshiftMessage::Start(_) => recorders[i],
                TimeshiftMessage::Stop(_) => recorders[i],
                TimeshiftMessage::Chunk(message) => recorders[i].after_chunk(message.chunk),
                TimeshiftMessage::EventStart(message) => recorders[i].after_event_start(
                    quad(message),
                    message.event,
                    message.record,
                ),
                TimeshiftMessage::EventUpdate(message) => recorders[i].after_event_update(
                    quad(message),
                    message.event,
                    message.record,
                ),
                TimeshiftMessage::EventEnd(message) => recorders[i].after_event_end(
                    quad(message),
                    message.event,
                    message.record,
                ),
            }
        }),
{
    lemma_index_of(recorders, message.recorder_name());
    let k = index_of(recorders, message.recorder_name());
    assert(recorders[i].name == message.recorder_name());
    assert(k == Some(i));
}

/// After the reports that a program has started and gone on or ended, clients are told that its
/// record goes from the time of the first report to that of the last, holds the bytes between the
/// two points, and is complete exactly if the program has ended. They are told of the program what
/// the last report tells, and of the older records what they were told before.
pub proof fn clients_are_told_what_was_reported<T>(
    recorders: Seq<TimeshiftRecorderView<T>>,
    first: TimeshiftEventMessage,
    last: TimeshiftEventMessage,
    end: bool,
)
    requires
        first.id@ == last.id@,
        recorder_of(recorders, first.id@) matches Some(recorder) && forall|i: int|
            0 <= i < recorder.records.len() ==> (#[trigger] recorder.records[i]).0
                != first.record.timestamp.secs,
    ensures
        ({
            let before = recorder_of(recorders, first.id@)->0;
            let started = after_message(recorders, TimeshiftMessage::EventStart(first));
            let told = after_message(
                started,
                if end {
                    TimeshiftMessage::EventEnd(last)
                } else {
                    TimeshiftMessage::EventUpdate(last)
                },
            );
            let file_size = before.config.chunk_size * before.config.num_chunks;
            &&& recorder_of(told, first.id@) matches Some(after)
            &&& after.record_models().len() == before.record_models().len() + 1
            &&& forall|i: int|
                0 <= i < before.record_models().len() ==> after.record_models()[i]
                    == #[trigger] before.record_models()[i]
            &&& after.points == before.points
            &&& after.name == before.name && after.config == before.config
            &&& after.service == before.service && after.session == before.session
            &&& {
                let model = after.record_models().last();
                &&& model.id.value == first.record.timestamp.secs
                &&& model.start_time == first.record.timestamp
                &&& model.end_time == last.record.timestamp
                &&& model.size == bytes_between(first.record, last.record, file_size)
                &&& model.recording == !end
                &&& model.program == program_of_event(
                    EventQuad {
                        nid: last.original_network_id,
                        tsid: last.transport_stream_id,
                        sid: last.service_id,
                        eid: last.event.event_id,
                    },
                    last.event,
                )@
            }
        }),
{
    let name = first.id@;
    let i = index_of(recorders, name)->0;
    lemma_index_of(recorders, name);
    lemma_key_index(recorders[i].records, first.record.timestamp.secs);
    reports_of_a_program_make_its_record(recorders, first, last);
    let started = after_message(recorders, TimeshiftMessage::EventStart(first));
    assert(started == recorders.update(i, started[i]));
    lemma_updated_recorder(recorders, name, started[i], name);
    lemma_index_of(started, name);
    let j = index_of(started, name)->0;
    let message = if end {
        TimeshiftMessage::EventEnd(last)
    } else {
        TimeshiftMessage::EventUpdate(last)
    };
    let told = after_message(started, message);
    assert(told == started.update(j, told[j]));
    lemma_updated_recorder(started, name, told[j], name);
    let before = recorders[i];
    let after = told[j];
    assert forall|k: int| 0 <= k < before.record_models().len() implies after.record_models()[k]
        == #[trigger] before.record_models()[k] by {
        assert(after.records[k] == before.records[k]);
    }
}

/// A services update leaves a configured recorder with what it is and what it has recorded. While
/// its service is available, it records that service: an inactive or new recorder waits to be
/// activated, and any other goes on. While the service is not available, it is inactive.
pub proof fn services_update_changes_service_and_session_alone<T>(
    recorders: Seq<TimeshiftRecorderView<T>>,
    configs: Seq<(String, TimeshiftConfig)>,
    services: EpgServices,
    i: int,
)
    requires
        config_names_unique(configs),
        0 <= i < configs.len(),
    ensures
        ({
            let service = services.service(configs[i].1.service_triple);
            let before = recorder_of(recorders, configs[i].0@);
            let after = recorder_of(all_aligned(recorders, configs, services), configs[i].0@);
            match (before, service) {
                (None, None) => after is None,
                (None, Some(service)) => after matches Some(after) && {
                    &&& after.name == configs[i].0@
                    &&& after.config == configs[i].1
                    &&& after.service == service
                    &&& after.records.len() == 0 && after.points.len() == 0
                    &&& after.session matches TimeshiftRecorderSession::Activating
                },
                (Some(before), _) => after matches Some(after) && {
                    &&& after.name == before.name && after.config == before.config
                    &&& after.records == before.records && after.points == before.points
                    &&& service matches Some(service) ==> after.service == service && (
                    before.session matches TimeshiftRecorderSession::Inactive
                        ==> after.session matches TimeshiftRecorderSession::Activating) && (!(
                    before.session matches TimeshiftRecorderSession::Inactive) ==> after.session
                        == before.session)
                    &&& service is None ==> after.service == before.service && (after.session
                        matches TimeshiftRecorderSession::Inactive)
                },
            }
        }),
{
    recorders_follow_their_services(recorders, configs, services, i);
}

/// An activation is asked for of a configured recorder exactly if its service is available and the
/// recorder is inactive or does not exist, and it is asked for with its configuration and with that
/// service.
pub proof fn activations_are_asked_for_where_needed<T>(
    recorders: Seq<TimeshiftRecorderView<T>>,
    configs: Seq<(String, TimeshiftConfig)>,
    services: EpgServices,
    i: int,
)
    requires
        config_names_unique(configs),
        0 <= i < configs.len(),
    ensures
        ({
            let service = services.service(configs[i].1.service_triple);
            let activations = needed_activations(recorders, configs, services);
            let wanted = service is Some && (recorder_of(recorders, configs[i].0@) matches Some(
                recorder,
            ) ==> recorder.session matches TimeshiftRecorderSession::Inactive);
            &&& wanted <==> exists|k: int|
                0 <= k < activations.len() && (#[trigger] activations[k]).name == configs[i].0@
            &&& forall|k: int|
                0 <= k < activations.len() && (#[trigger] activations[k]).name == configs[i].0@
                    ==> activations[k].config == configs[i].1 && Some(activations[k].service)
                    == service
        }),
    decreases configs.len(),
{
    let last = configs.last();
    let earlier = configs.drop_last();
    let service = services.service(last.1.service_triple);
    let before = all_aligned(recorders, earlier, services);
    let old_activations = needed_activations(recorders, earlier, services);
    let activations = needed_activations(recorders, configs, services);
    lemma_activation_names(recorders, earlier, services);
    let name = configs[i].0@;
    if i < configs.len() - 1 {
        assert(earlier[i] == configs[i]);
        activations_are_asked_for_where_needed(recorders, earlier, services, i);
        assert(last.0@ != name);
        assert forall|k: int| 0 <= k < activations.len() && (#[trigger] activations[k]).name
            == name implies 0 <= k < old_activations.len() && activations[k]
            == old_activations[k] by {}
        if exists|k: int|
            0 <= k < old_activations.len() && (#[trigger] old_activations[k]).name == name {
            let k = choose|k: int|
                0 <= k < old_activations.len() && (#[trigger] old_activations[k]).name == name;
            assert(activations[k] == old_activations[k]);
        }
        if exists|k: int| 0 <= k < activations.len() && (#[trigger] activations[k]).name == name {
            let k = choose|k: int|
                0 <= k < activations.len() && (#[trigger] activations[k]).name == name;
            assert(activations[k] == old_activations[k]);
        }
    } else {
        assert forall|k: int| 0 <= k < old_activations.len() implies (
        #[trigger] old_activations[k]).name != name by {
            let j = choose|j: int|
                0 <= j < earlier.len() && (#[trigger] earlier[j]).0@ == old_activations[k].name;
            assert(earlier[j] == configs[j]);
        }
        assert forall|j: int| 0 <= j < earlier.len() implies (#[trigger] earlier[j]).0@ != name by {
            assert(earlier[j] == configs[j]);
        }
        other_recorders_are_left_alone(recorders, earlier, services, name);
        lemma_index_of(before, name);
        if needs_activation(before, name, service) {
            assert(activations[activations.len() - 1].name == name);
            assert forall|k: int| 0 <= k < activations.len() && (#[trigger] activations[k]).name
                == name implies k == activations.len() - 1 by {
                if k < old_activations.len() {
                    assert(activations[k] == old_activations[k]);
                }
            }
        }
    }
}

proof fn lemma_activation_names<T>(
    recorders: Seq<TimeshiftRecorderView<T>>,
    configs: Seq<(String, TimeshiftConfig)>,
    services: EpgServices,
)
    ensures
        forall|k: int|
            0 <= k < needed_activations(recorders, configs, services).len() ==> exists|j: int|
                0 <= j < configs.len() && (#[trigger] configs[j]).0@ == (
                #[trigger] needed_activations(recorders, configs, services)[k]).name,
    decreases configs.len(),
{
    if configs.len() > 0 {
        let earlier = configs.drop_last();
        lemma_activation_names(recorders, earlier, services);
        let activations = needed_activations(recorders, configs, services);
        let old_activations = needed_activations(recorders, earlier, services);
        assert forall|k: int| 0 <= k < activations.len() implies exists|j: int|
            0 <= j < configs.len() && (#[trigger] configs[j]).0@ == (
            #[trigger] activations[k]).name by {
            if k < old_activations.len() {
                assert(activations[k] == old_activations[k]);
                let j = choose|j: int|
                    0 <= j < earlier.len() && (#[trigger] earlier[j]).0@ == old_activations[k].name;
                assert(configs[j] == earlier[j]);
            } else {
                assert(configs[configs.len() - 1].0@ == activations[k].name);
            }
        }
    }
}

/// The outcome of an activation becomes the session of its recorder, with the trigger of a
/// successful one. Nothing else changes, and an outcome for an unknown recorder changes nothing.
pub proof fn outcome_becomes_the_session<T>(
    recorders: Seq<TimeshiftRecorderView<T>>,
    name: Seq<char>,
    outcome: Result<T, MirakcError>,
    other: Seq<char>,
)
    ensures
        ({
            let after = activated(recorders, name, outcome);
            &&& other != name ==> recorder_of(after, other) == recorder_of(recorders, other)
            &&& recorder_of(recorders, name) is None ==> after == recorders
            &&& recorder_of(recorders, name) matches Some(before) ==> (recorder_of(after, name)
                matches Some(recorder) && {
                &&& outcome matches Ok(trigger) ==> recorder.session
                    == TimeshiftRecorderSession::Active(trigger)
                &&& outcome is Err ==> recorder.session
                    == TimeshiftRecorderSession::<T>::Inactive
                &&& recorder.name == before.name && recorder.config == before.config
                &&& recorder.service == before.service
                &&& recorder.records == before.records && recorder.points == before.points
            })
        }),
{
    lemma_index_of(recorders, name);
    if let Some(k) = index_of(recorders, name) {
        let new = TimeshiftRecorderView { session: session_of(outcome), ..recorders[k] };
        lemma_updated_recorder(recorders, name, new, other);
        lemma_updated_recorder(recorders, name, new, name);
    }
}

/// Nothing of the recorders is left out when they are looked at as a whole.
pub proof fn manager_view_leaves_no_recorder_out<A, T>(manager: TimeshiftManager<A, T>, i: int)
    ensures
        manager@.len() == manager.recorders@.len(),
        0 <= i < manager@.len() ==> manager@[i] == manager.recorders@[i]@,
{
}

/// A record is found exactly if a recorder of that name holds it, and it is the one that the
/// recorder keeps under its identifier.
pub proof fn records_are_found_where_they_are_kept<A, T>(
    manager: TimeshiftManager<A, T>,
    name: Seq<char>,
    id: TimeshiftRecordId,
)
    requires
        forall|i: int, j: int|
            0 <= i < j < manager@.len() ==> (#[trigger] manager@[i]).name != (
            #[trigger] manager@[j]).name,
    ensures
        match manager.find_record(name, id) {
            Some((record, i)) => {
                &&& 0 <= i < manager@.len()
                &&& manager@[i].name == name
                &&& exists|k: int|
                    0 <= k < manager@[i].records.len() && #[trigger] manager@[i].records[k] == (
                        id.value,
                        record,
                    )
            },
            None => forall|i: int, k: int|
                0 <= i < manager@.len() && manager@[i].name == name && 0 <= k
                    < manager@[i].records.len() ==> (#[trigger] manager@[i].records[k]).0
                    != id.value,
        },
{
    lemma_index_of(manager@, name);
    if let Some(i) = index_of(manager@, name) {
        lemma_key_index(manager@[i].records, id.value);
        if let Some(k) = key_index(manager@[i].records, id.value) {
            assert(manager@[i].records[k] == (id.value, manager@[i].records[k].1));
        }
        assert forall|j: int| 0 <= j < manager@.len() && manager@[j].name == name implies j
            == i by {
            if j < i {
                assert(manager@[j].name != manager@[i].name);
            }
            if i < j {
                assert(manager@[i].name != manager@[j].name);
            }
        }
    }
}

/// A report can be taken in exactly if its recorder is known and, if it is on a chunk, the chunk lies
/// on a boundary and a full ring is left with another chunk.
pub proof fn known_recorders_take_their_reports<T>(
    recorders: Seq<TimeshiftRecorderView<T>>,
    message: TimeshiftMessage,
    chunk: TimeshiftChunkMessage,
)
    ensures
        !(message is Chunk) ==> (fits_message(recorders, message) <==> exists|i: int|
            0 <= i < recorders.len() && (#[trigger] recorders[i]).name
                == message.recorder_name()),
        fits_message(recorders, TimeshiftMessage::Chunk(chunk)) <==> exists|i: int|
            {
                &&& 0 <= i < recorders.len()
                &&& (#[trigger] recorders[i]).name == chunk.id@
                &&& forall|j: int| 0 <= j < i ==> (#[trigger] recorders[j]).name != chunk.id@
                &&& chunk.chunk.pos % recorders[i].config.chunk_size as u64 == 0
                &&& recorders[i].points.len() < recorders[i].config.num_chunks
                    - recorders[i].config.num_reserves || recorders[i].points.len() >= 2
            },
{
    lemma_index_of(recorders, message.recorder_name());
    lemma_index_of(recorders, chunk.id@);
    if let Some(i) = index_of(recorders, chunk.id@) {
        assert(recorders[i].name == chunk.id@);
    }
}

/// A manager that takes a report in changes the recorder that the report names, as the recorder
/// takes it in, and nothing else.
pub proof fn manager_hands_reports_to_their_recorder<A, T>(
    manager: &mut TimeshiftManager<A, T>,
    message: TimeshiftMessage,
    i: int,
)
    requires
        call_ensures(TimeshiftManager::<A, T>::handle, (manager, message), ()),
        0 <= i < old(manager)@.len(),
        old(manager)@[i].name == message.recorder_name(),
        forall|j: int| 0 <= j < i ==> (#[trigger] old(manager)@[j]).name != old(manager)@[i].name,
    ensures
        final(manager).config == old(manager).config,
        final(manager).tuner_manager == old(manager).tuner_manager,
        final(manager)@.len() == old(manager)@.len(),
        forall|j: int|
            0 <= j < old(manager)@.len() && j != i ==> final(manager)@[j] == #[trigger] old(manager)@[j],
        message is Start || message is Stop ==> final(manager)@[i] == old(manager)@[i],
        message matches TimeshiftMessage::Chunk(message) ==> final(manager)@[i]
            == old(manager)@[i].after_chunk(message.chunk),
        message matches TimeshiftMessage::EventStart(message) ==> final(manager)@[i]
            == old(manager)@[i].after_event_start(message.spec_quad(), message.event, message.record),
        message matches TimeshiftMessage::EventUpdate(message) ==> final(manager)@[i]
            == old(manager)@[i].after_event_update(message.spec_quad(), message.event, message.record),
        message matches TimeshiftMessage::EventEnd(message) ==> final(manager)@[i]
            == old(manager)@[i].after_event_end(message.spec_quad(), message.event, message.record),
{
    reports_reach_their_recorder(old(manager)@, message, i);
}

/// A manager that is told of the services brings every configured recorder in line with them, and
/// gives the activations that are needed.
pub proof fn manager_follows_the_services<A, T>(
    manager: &mut TimeshiftManager<A, T>,
    services: EpgServices,
    activations: Vec<TimeshiftActivation>,
    i: int,
)
    requires
        call_ensures(
            TimeshiftManager::<A, T>::handle_services_updated,
            (manager, &services),
            activations,
        ),
        config_names_unique(old(manager).config.timeshift@),
        0 <= i < old(manager).config.timeshift@.len(),
    ensures
        final(manager).config == old(manager).config,
        final(manager).tuner_manager == old(manager).tuner_manager,
        ({
            let config = old(manager).config.timeshift@[i];
            let service = services.service(config.1.service_triple);
            let before = recorder_of(old(manager)@, config.0@);
            let after = recorder_of(final(manager)@, config.0@);
            let inactive = match before {
                Some(before) => before.session is Inactive,
                None => true,
            };
            &&& service is Some ==> after is Some && Some(after->0.service) == service && !(
            after->0.session is Inactive) && (inactive ==> after->0.session is Activating)
            &&& service is None ==> (after is Some <==> before is Some) && (after is Some
                ==> after->0.session is Inactive)
            &&& before matches Some(before) ==> after is Some && after->0.records == before.records
                && after->0.points == before.points && after->0.config == before.config
            &&& service is Some && inactive <==> exists|k: int|
                0 <= k < activations@.len() && (#[trigger] activations@[k]).name@ == config.0@
            &&& forall|k: int|
                0 <= k < activations@.len() && (#[trigger] activations@[k]).name@ == config.0@
                    ==> activations@[k].config == config.1 && Some(activations@[k].service@)
                    == service
        }),
{
    let configs = old(manager).config.timeshift@;
    let views = activation_views(activations@);
    services_update_changes_service_and_session_alone(old(manager)@, configs, services, i);
    activations_are_asked_for_where_needed(old(manager)@, configs, services, i);
    assert forall|k: int| 0 <= k < activations@.len() implies #[trigger] activations@[k]@
        == views[k] by {}
    if exists|k: int| 0 <= k < views.len() && (#[trigger] views[k]).name == configs[i].0@ {
        let k = choose|k: int| 0 <= k < views.len() && (#[trigger] views[k]).name == configs[i].0@;
        assert(activations@[k]@ == views[k]);
        assert(activations@[k].name@ == configs[i].0@);
    }
    if exists|k: int|
        0 <= k < activations@.len() && (#[trigger] activations@[k]).name@ == configs[i].0@ {
        let k = choose|k: int|
            0 <= k < activations@.len() && (#[trigger] activations@[k]).name@ == configs[i].0@;
        assert(views[k].name == configs[i].0@);
    }
    assert forall|k: int|
        0 <= k < activations@.len() && (#[trigger] activations@[k]).name@
            == configs[i].0@ implies activations@[k].config == configs[i].1 && Some(
        activations@[k].service@,
    ) == services.service(configs[i].1.service_triple) by {
        assert(views[k].name == configs[i].0@);
    }
}

/// A manager answers queries about the recorder that they name, with what that recorder is, and
/// knows no other.
pub proof fn queries_are_answered_by_their_recorder<A, T>(
    manager: TimeshiftManager<A, T>,
    recorder: QueryTimeshiftRecorderMessage,
    records: QueryTimeshiftRecordsMessage,
    now: JstTime,
    models: Vec<TimeshiftRecorderModel>,
    model: Result<TimeshiftRecorderModel, MirakcError>,
    record_models: Result<Vec<TimeshiftRecordModel>, MirakcError>,
    i: int,
    k: int,
)
    requires
        call_ensures(TimeshiftManager::<A, T>::query_recorders, (&manager, now), models),
        call_ensures(TimeshiftManager::<A, T>::query_recorder, (&manager, &recorder, now), model),
        call_ensures(
            TimeshiftManager::<A, T>::query_records,
            (&manager, &records),
            record_models,
        ),
        recorder.name@ == records.recorder_name@,
    ensures
        models@.len() == manager.recorders@.len(),
        0 <= i < models@.len() ==> models@[i].name@ == manager.recorders@[i].name@
            && models@[i].service@ == manager.recorders@[i].service@ && (models@[i].recording
            <==> manager.recorders@[i].session is Active) && (manager.recorders@[i].points@.len()
            > 0 ==> models@[i].start_time == manager.recorders@[i].points@[0].timestamp
            && models@[i].end_time == manager.recorders@[i].points@.last().timestamp),
        model is Ok <==> record_models is Ok,
        model is Ok <==> exists|j: int|
            0 <= j < manager@.len() && (#[trigger] manager@[j]).name == recorder.name@,
        model matches Err(error) ==> error is RecordNotFound,
        record_models matches Err(error) ==> error is RecordNotFound,
        model matches Ok(model) ==> model.name@ == recorder.name@,
        0 <= i < manager@.len() && manager@[i].name == recorder.name@ && (forall|j: int|
            0 <= j < i ==> (#[trigger] manager@[j]).name != recorder.name@) ==> {
            let file_size = manager@[i].config.chunk_size * manager@[i].config.num_chunks;
            &&& model matches Ok(model) && model@ == models@[i]@
            &&& record_models matches Ok(told) && told@.len() == manager@[i].records.len() && (0
                <= k < told@.len() ==> {
                let record = manager@[i].records[k].1;
                &&& told@[k].id == record.id
                &&& told@[k].program@ == record.program@
                &&& told@[k].start_time == record.start.timestamp
                &&& told@[k].end_time == record.end.timestamp
                &&& told@[k].size == bytes_between(record.start, record.end, file_size)
                &&& told@[k].recording == record.recording
            })
        },
{
    lemma_index_of(manager@, recorder.name@);
    if 0 <= i < models@.len() {
        assert(models@[i]@ == manager@[i].model(now));
        assert(manager@[i] == manager.recorders@[i]@);
    }
    if let Some(j) = index_of(manager@, recorder.name@) {
        assert(manager@[j].name == recorder.name@);
        if 0 <= i < manager@.len() && manager@[i].name == recorder.name@ && (forall|j: int|
            0 <= j < i ==> (#[trigger] manager@[j]).name != recorder.name@) {
            assert(i == j);
            let views = record_models->Ok_0@.map_values(|model: TimeshiftRecordModel| model@);
            assert(views.len() == record_models->Ok_0@.len());
            if 0 <= k < views.len() {
                assert(views[k] == record_models->Ok_0@[k]@);
                assert(views[k] == manager@[i].record_models()[k]);
            }
        }
    }
}

/// A query for a record is answered with what that record is, and a request for a stream with the
/// stream of the recorder that it names.
pub proof fn record_queries_are_answered_by_the_record<A, T>(
    manager: TimeshiftManager<A, T>,
    message: QueryTimeshiftRecordMessage,
    model: Result<TimeshiftRecordModel, MirakcError>,
)
    requires
        call_ensures(TimeshiftManager::<A, T>::query_record, (&manager, &message), model),
    ensures
        match manager.find_record(message.recorder_name@, message.record_id) {
            Some((record, i)) => {
                let config = manager@[i].config;
                &&& model matches Ok(model)
                &&& model.id == record.id
                &&& model.program@ == record.program@
                &&& model.start_time == record.start.timestamp
                &&& model.end_time == record.end.timestamp
                &&& model.size == bytes_between(
                    record.start,
                    record.end,
                    config.chunk_size * config.num_chunks,
                )
                &&& model.recording == record.recording
            },
            None => model == Err::<TimeshiftRecordModel, _>(MirakcError::RecordNotFound),
        },
{
}

/// A request for a stream is answered by the recorder that it names, and refused if there is none.
pub proof fn stream_requests_are_answered_by_their_recorder<A, T>(
    manager: TimeshiftManager<A, T>,
    name: &str,
    live_id: Option<TimeshiftRecordId>,
    record_id: TimeshiftRecordId,
    start_pos: Option<u64>,
    live: Result<TimeshiftStreamSource, MirakcError>,
    recorded: Result<TimeshiftRecordStreamSource, MirakcError>,
    i: int,
)
    requires
        call_ensures(
            TimeshiftManager::<A, T>::create_live_stream_source,
            (&manager, name, live_id),
            live,
        ),
        call_ensures(
            TimeshiftManager::<A, T>::create_record_stream_source,
            (&manager, name, record_id, start_pos),
            recorded,
        ),
    ensures
        (forall|j: int| 0 <= j < manager@.len() ==> (#[trigger] manager@[j]).name != name@) ==> {
            &&& live == Err::<TimeshiftStreamSource, _>(MirakcError::RecordNotFound)
            &&& recorded == Err::<TimeshiftRecordStreamSource, _>(MirakcError::RecordNotFound)
        },
        0 <= i < manager@.len() && manager@[i].name == name@ && (forall|j: int|
            0 <= j < i ==> (#[trigger] manager@[j]).name != name@) ==> {
            &&& live is Ok <==> manager@[i].live_point(live_id) is Ok
            &&& live matches Ok(source) ==> {
                &&& source.name@ == name@
                &&& source.file == manager@[i].config.file
                &&& manager@[i].live_point(live_id) == Ok::<_, MirakcError>(source.point)
            }
            &&& live matches Err(error) ==> manager@[i].live_point(live_id) == Err::<
                TimeshiftPoint,
                _,
            >(error)
            &&& recorded == match find_record(manager@[i].records, record_id.value) {
                Some(record) => record.spec_source(
                    manager.recorders@[i].name,
                    manager@[i].config,
                    start_pos,
                ),
                None => Err(MirakcError::ProgramNotFound),
            }
        },
{
    lemma_index_of(manager@, name@);
    if let Some(j) = index_of(manager@, name@) {
        assert(manager@[j].name == name@);
    }
}

/// A manager that is told how activations have ended gives every recorder that it knows the session
/// of its outcome, and keeps everything else of it.
pub proof fn manager_settles_activated_recorders<A, T>(
    manager: &mut TimeshiftManager<A, T>,
    outcomes: Vec<(String, Result<T, MirakcError>)>,
    i: int,
)
    requires
        call_ensures(TimeshiftManager::<A, T>::handle_activated, (manager, outcomes), ()),
        0 <= i < outcomes@.len(),
        forall|j: int| i < j < outcomes@.len() ==> (#[trigger] outcomes@[j]).0@ != outcomes@[i].0@,
    ensures
        final(manager).config == old(manager).config,
        final(manager).tuner_manager == old(manager).tuner_manager,
        recorder_of(old(manager)@, outcomes@[i].0@) matches Some(before) ==> {
            &&& recorder_of(final(manager)@, outcomes@[i].0@) matches Some(after)
            &&& outcomes@[i].1 matches Ok(trigger) ==> after.session
                == TimeshiftRecorderSession::Active(trigger)
            &&& outcomes@[i].1 is Err ==> after.session == TimeshiftRecorderSession::<T>::Inactive
            &&& after.records == before.records && after.points == before.points
        },
{
    activations_settle_their_recorders(old(manager)@, outcomes@, i);
}

} // verus!
