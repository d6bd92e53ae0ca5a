//! A timeshift recorder: the chunks that its ring holds, and the records in them.

use crate::config::TimeshiftConfig;
use crate::epg::{
    program_of_event, EitEvent, EpgProgram, EpgService, EpgServiceView,
};
use crate::error::MirakcError;
use crate::models::{EventQuad, TimeshiftRecordId};
use crate::time::JstTime;
use crate::timeshift::record::{
    bytes_between, TimeshiftPoint, TimeshiftRecord, TimeshiftRecordModel, TimeshiftRecordModelView,
};
use crate::timeshift::records::{
    drain_records, find_record, get_record, get_record_at, insert_record, inserted, key_index,
    keys_of, last_record_mut, lemma_inserted_valid, lemma_key_index, new_records, record_entries,
    records_len, records_valid,
};
use crate::timeshift::source::{TimeshiftRecordStreamSource, TimeshiftStreamSource};
use indexmap::IndexMap;
use vstd::prelude::*;

verus! {

/// Whether a recorder records. An active one owns a trigger which stops the tuner's stream when
/// it is dropped.
#[derive(Debug)]
pub enum TimeshiftRecorderSession<T> {
    Inactive,
    Activating,
    Active(T),
}

/// A timeshift recorder.
#[derive(Debug)]
pub struct TimeshiftRecorder<T> {
    pub name: String,
    pub config: TimeshiftConfig,
    pub service: EpgService,
    /// The records by identifier, in the order in which they were started.
    pub records: IndexMap<i64, TimeshiftRecord>,
    /// The points at which the chunks start, from the oldest chunk to the newest.
    pub points: Vec<TimeshiftPoint>,
    pub session: TimeshiftRecorderSession<T>,
}

/// What a recorder is made of.
#[verifier::ext_equal]
#[verifier::reject_recursive_types(T)]
pub struct TimeshiftRecorderView<T> {
    pub name: Seq<char>,
    pub config: TimeshiftConfig,
    pub service: EpgServiceView,
    pub records: Seq<(i64, TimeshiftRecord)>,
    pub points: Seq<TimeshiftPoint>,
    pub session: TimeshiftRecorderSession<T>,
}

impl<T> View for TimeshiftRecorder<T> {
    type V = TimeshiftRecorderView<T>;

    open spec fn view(&self) -> TimeshiftRecorderView<T> {
        TimeshiftRecorderView {
            name: self.name@,
            config: self.config,
            service: self.service@,
            records: record_entries(self.records),
            points: self.points@,
            session: self.session,
        }
    }
}

/// What clients are told of a recorder.
#[derive(Debug)]
pub struct TimeshiftRecorderModel {
    pub name: String,
    pub service: EpgService,
    pub start_time: JstTime,
    pub end_time: JstTime,
    pub recording: bool,
}

/// What a recorder model is made of.
#[verifier::ext_equal]
pub struct TimeshiftRecorderModelView {
    pub name: Seq<char>,
    pub service: EpgServiceView,
    pub start_time: JstTime,
    pub end_time: JstTime,
    pub recording: bool,
}

impl View for TimeshiftRecorderModel {
    type V = TimeshiftRecorderModelView;

    open spec fn view(&self) -> TimeshiftRecorderModelView {
        TimeshiftRecorderModelView {
            name: self.name@,
            service: self.service@,
            start_time: self.start_time,
            end_time: self.end_time,
            recording: self.recording,
        }
    }
}

/// The number of records, from the oldest on, that end no later than an instant.
pub open spec fn num_expired(records: Seq<(i64, TimeshiftRecord)>, timestamp: JstTime) -> int
    decreases records.len(),
{
    if records.len() == 0 || records[0].1.end.timestamp.after(timestamp) {
        0
    } else {
        1 + num_expired(records.drop_first(), timestamp)
    }
}

impl<T> TimeshiftRecorderView<T> {
    /// The configuration and the records are valid, and no more chunks are kept than are offered.
    pub open spec fn valid(self) -> bool {
        &&& self.config.valid()
        &&& records_valid(self.records)
        &&& self.points.len() <= self.config.spec_max_chunks()
    }

    /// A chunk can start at a point: the point lies on the boundary of a chunk, and if there is
    /// no room for another chunk, dropping the oldest leaves at least one.
    pub open spec fn can_take_chunk(self, point: TimeshiftPoint) -> bool {
        &&& point.pos % self.config.chunk_size as u64 == 0
        &&& self.points.len() >= self.config.spec_max_chunks() ==> self.points.len() >= 2
    }

    /// All of the records have a size.
    pub open spec fn records_fit(self) -> bool {
        forall|i: int|
            0 <= i < self.records.len() ==> (#[trigger] self.records[i]).1.fits(
                self.config.spec_max_file_size(),
            )
    }

    /// The recorder without its oldest chunk.
    pub open spec fn without_first_chunk(self) -> TimeshiftRecorderView<T> {
        TimeshiftRecorderView { points: self.points.drop_first(), ..self }
    }

    /// The recorder without the records that end no later than its oldest chunk starts.
    pub open spec fn purged(self) -> TimeshiftRecorderView<T> {
        TimeshiftRecorderView {
            records: self.records.skip(num_expired(self.records, self.points[0].timestamp)),
            ..self
        }
    }

    /// The recorder with room for another chunk.
    pub open spec fn maintained(self) -> TimeshiftRecorderView<T> {
        if self.points.len() < self.config.spec_max_chunks() {
            self
        } else {
            self.without_first_chunk().purged()
        }
    }

    /// The recorder with another chunk.
    pub open spec fn with_chunk(self, point: TimeshiftPoint) -> TimeshiftRecorderView<T> {
        TimeshiftRecorderView { points: self.points.push(point), ..self }
    }

    /// The recorder after a chunk has been started.
    pub open spec fn after_chunk(self, point: TimeshiftPoint) -> TimeshiftRecorderView<T> {
        self.maintained().with_chunk(point)
    }

    /// The recorder after a program has started at a point.
    pub open spec fn after_event_start(
        self,
        quad: EventQuad,
        event: EitEvent,
        point: TimeshiftPoint,
    ) -> TimeshiftRecorderView<T> {
        let record = TimeshiftRecord {
            id: TimeshiftRecordId { value: point.timestamp.secs },
            program: program_of_event(quad, event),
            start: point,
            end: point,
            recording: true,
        };
        TimeshiftRecorderView {
            records: inserted(self.records, point.timestamp.secs, record),
            ..self
        }
    }

    /// The recorder after its newest record has gone on to a point, or ended there.
    pub open spec fn with_last_record_updated(
        self,
        program: EpgProgram,
        point: TimeshiftPoint,
        end: bool,
    ) -> TimeshiftRecorderView<T> {
        if self.records.len() == 0 {
            self
        } else {
            let last = self.records.last();
            TimeshiftRecorderView {
                records: self.records.update(
                    self.records.len() - 1,
                    (last.0, last.1.updated(program, point, end)),
                ),
                ..self
            }
        }
    }

    /// The recorder after the program at its end has gone on to a point.
    pub open spec fn after_event_update(
        self,
        quad: EventQuad,
        event: EitEvent,
        point: TimeshiftPoint,
    ) -> TimeshiftRecorderView<T> {
        self.with_last_record_updated(program_of_event(quad, event), point, false)
    }

    /// The recorder after the program at its end has ended at a point.
    pub open spec fn after_event_end(
        self,
        quad: EventQuad,
        event: EitEvent,
        point: TimeshiftPoint,
    ) -> TimeshiftRecorderView<T> {
        self.with_last_record_updated(program_of_event(quad, event), point, true)
    }

    /// The point at which a live stream starts: that of a record, or the oldest.
    pub open spec fn live_point(self, record_id: Option<TimeshiftRecordId>) -> Result<
        TimeshiftPoint,
        MirakcError,
    > {
        if self.points.len() < 2 {
            Err(MirakcError::RecordNotFound)
        } else {
            match record_id {
                Some(id) => match find_record(self.records, id.value) {
                    Some(record) => Ok(record.start),
                    None => Err(MirakcError::ProgramNotFound),
                },
                None => Ok(self.points[0]),
            }
        }
    }

    /// What clients are told of the recorder. The timeline is empty at `now` if nothing has been
    /// recorded.
    pub open spec fn model(self, now: JstTime) -> TimeshiftRecorderModelView {
        TimeshiftRecorderModelView {
            name: self.name,
            service: self.service,
            start_time: if self.points.len() == 0 {
                now
            } else {
                self.points[0].timestamp
            },
            end_time: if self.points.len() == 0 {
                now
            } else {
                self.points.last().timestamp
            },
            recording: self.session is Active,
        }
    }

    /// What clients are told of the records.
    pub open spec fn record_models(self) -> Seq<TimeshiftRecordModelView> {
        self.records.map_values(
            |entry: (i64, TimeshiftRecord)| entry.1.spec_model(self.config.spec_max_file_size()),
        )
    }
}

/// A recorder that has not recorded anything.
pub open spec fn new_recorder<T>(
    name: Seq<char>,
    config: TimeshiftConfig,
    service: EpgServiceView,
) -> TimeshiftRecorderView<T> {
    TimeshiftRecorderView {
        name,
        config,
        service,
        records: Seq::empty(),
        points: Seq::empty(),
        session: TimeshiftRecorderSession::Inactive,
    }
}

impl<T> TimeshiftRecorder<T> {
    /// A recorder that has not recorded anything.
    pub fn new(name: String, config: TimeshiftConfig, service: EpgService) -> (recorder:
        TimeshiftRecorder<T>)
        requires
            config.valid(),
        ensures
            recorder@ == new_recorder::<T>(name@, config, service@),
            recorder@.valid(),
    {
        TimeshiftRecorder {
            name,
            config,
            service,
            records: new_records(),
            points: Vec::new(),
            session: TimeshiftRecorderSession::Inactive,
        }
    }

    /// Tells whether the recorder records.
    pub fn is_active(&self) -> (active: bool)
        ensures
            active == self.session is Active,
    {
        match &self.session {
            TimeshiftRecorderSession::Active(_) => true,
            _ => false,
        }
    }

    /// Tells whether the recorder neither records nor is about to.
    pub fn is_inactive(&self) -> (inactive: bool)
        ensures
            inactive == self.session is Inactive,
    {
        match &self.session {
            TimeshiftRecorderSession::Inactive => true,
            _ => false,
        }
    }

    /// Prepares a live stream, which starts at a record or at the oldest chunk.
    pub fn create_live_stream_source(&self, record_id: Option<TimeshiftRecordId>) -> (source:
        Result<TimeshiftStreamSource, MirakcError>)
        ensures
            match self@.live_point(record_id) {
                Ok(point) => source == Ok::<TimeshiftStreamSource, MirakcError>(
                    TimeshiftStreamSource { name: self.name, file: self.config.file, point },
                ),
                Err(error) => source == Err::<TimeshiftStreamSource, MirakcError>(error),
            },
    {
        if self.points.len() < 2 {
            return Err(MirakcError::RecordNotFound);
        }
        let name = self.name.clone();
        let file = self.config.file.clone();
        let point = match record_id {
            Some(id) => match get_record(&self.records, id.value) {
                Some(record) => record.start,
                None => {
                    return Err(MirakcError::ProgramNotFound);
                },
            },
            None => self.points[0],
        };
        Ok(TimeshiftStreamSource { name, file, point })
    }

    /// Prepares a stream of a record, from its beginning or from a position in it.
    pub fn create_record_stream_source(
        &self,
        record_id: TimeshiftRecordId,
        start_pos: Option<u64>,
    ) -> (source: Result<TimeshiftRecordStreamSource, MirakcError>)
        requires
            find_record(self@.records, record_id.value) matches Some(record) ==> record.can_stream(
                self.config,
                start_pos,
            ),
        ensures
            match find_record(self@.records, record_id.value) {
                Some(record) => source == record.spec_source(self.name, self.config, start_pos),
                None => source == Err::<TimeshiftRecordStreamSource, MirakcError>(
                    MirakcError::ProgramNotFound,
                ),
            },
    {
        match get_record(&self.records, record_id.value) {
            Some(record) => record.create_record_stream_source(
                self.name.clone(),
                &self.config,
                start_pos,
            ),
            None => Err(MirakcError::ProgramNotFound),
        }
    }

    /// Takes the start of the recording in, which changes nothing.
    pub fn start_recording(&mut self)
        ensures
            *final(self) == *old(self),
    {
    }

    /// Takes the end of the recording in, which changes nothing: the chunks and the records stay
    /// available even if the recording has been reset.
    pub fn stop_recording(&mut self, reset: bool)
        ensures
            *final(self) == *old(self),
    {
    }

    /// Takes the start of a chunk in.
    pub fn handle_chunk(&mut self, point: TimeshiftPoint)
        requires
            old(self)@.valid(),
            old(self)@.can_take_chunk(point),
        ensures
            final(self)@ == old(self)@.after_chunk(point),
            final(self)@.valid(),
    {
        self.maintain();
        self.append_point(point);
    }

    /// Makes room for another chunk.
    pub fn maintain(&mut self)
        requires
            old(self)@.valid(),
            old(self)@.points.len() >= old(self)@.config.spec_max_chunks() ==> old(
                self,
            )@.points.len() >= 2,
        ensures
            final(self)@ == old(self)@.maintained(),
            final(self)@.valid(),
    {
        if self.points.len() < self.config.max_chunks() {
            return;
        }
        self.invalidate_first_chunk();
        self.purge_expired_records();
    }

    /// Drops the oldest chunk of a full ring.
    pub fn invalidate_first_chunk(&mut self)
        requires
            old(self)@.valid(),
            old(self)@.points.len() == old(self)@.config.spec_max_chunks(),
            old(self)@.points.len() > 0,
        ensures
            final(self)@ == old(self)@.without_first_chunk(),
            final(self)@.valid(),
    {
        let _ = self.points.remove(0);
        proof {
            assert(self@.points =~= old(self)@.points.drop_first());
        }
    }

    /// Drops the records that end no later than the oldest chunk starts.
    pub fn purge_expired_records(&mut self)
        requires
            old(self)@.valid(),
            old(self)@.points.len() > 0,
        ensures
            final(self)@ == old(self)@.purged(),
            final(self)@.valid(),
    {
        let timestamp = self.points[0].timestamp;
        let len = records_len(&self.records);
        let ghost records = self@.records;
        let mut n: usize = 0;
        proof {
            assert(records.skip(0) =~= records);
        }
        while n < len
            invariant_except_break
                num_expired(records, timestamp) == n + num_expired(
                    records.skip(n as int),
                    timestamp,
                ),
            invariant
                n <= len,
                len == records.len(),
                records == record_entries(self.records),
            ensures
                n == num_expired(records, timestamp),
            decreases len - n,
        {
            proof {
                assert(records.skip(n as int)[0] == records[n as int]);
                assert(records.skip(n as int).drop_first() =~= records.skip(n + 1));
            }
            match get_record_at(&self.records, n) {
                Some(record) => {
                    if record.end.timestamp.is_after(timestamp) {
                        break;
                    }
                },
                None => {
                    break;
                },
            }
            n += 1;
        }
        drain_records(&mut self.records, n);
    }

    /// Adds a chunk.
    pub fn append_point(&mut self, point: TimeshiftPoint)
        requires
            old(self)@.valid(),
            old(self)@.points.len() < old(self)@.config.spec_max_chunks(),
            point.pos % old(self)@.config.chunk_size as u64 == 0,
        ensures
            final(self)@ == old(self)@.with_chunk(point),
            final(self)@.valid(),
    {
        self.points.push(point);
    }

    /// Takes the start of a program in: a record of it starts.
    pub fn handle_event_start(&mut self, quad: EventQuad, event: EitEvent, point: TimeshiftPoint)
        requires
            old(self)@.valid(),
        ensures
            final(self)@ == old(self)@.after_event_start(quad, event, point),
            final(self)@.valid(),
    {
        let id = TimeshiftRecordId::from(point.timestamp.timestamp());
        let mut program = EpgProgram::new(quad);
        program.update(event);
        let record = TimeshiftRecord::new(id, program, point);
        proof {
            lemma_inserted_valid(self@.records, record);
        }
        let _ = insert_record(&mut self.records, id.value, record);
    }

    /// Takes the progress of a program in: the newest record goes on.
    pub fn handle_event_update(&mut self, quad: EventQuad, event: EitEvent, point: TimeshiftPoint)
        requires
            old(self)@.valid(),
        ensures
            final(self)@ == old(self)@.after_event_update(quad, event, point),
            final(self)@.valid(),
    {
        let mut program = EpgProgram::new(quad);
        program.update(event);
        self.update_last_record(program, point, false);
    }

    /// Takes the end of a program in: the newest record ends.
    pub fn handle_event_end(&mut self, quad: EventQuad, event: EitEvent, point: TimeshiftPoint)
        requires
            old(self)@.valid(),
        ensures
            final(self)@ == old(self)@.after_event_end(quad, event, point),
            final(self)@.valid(),
    {
        let mut program = EpgProgram::new(quad);
        program.update(event);
        self.update_last_record(program, point, true);
    }

    /// Moves the end of the newest record, if there is any.
    pub fn update_last_record(&mut self, program: EpgProgram, point: TimeshiftPoint, end: bool)
        requires
            old(self)@.valid(),
        ensures
            final(self)@ == old(self)@.with_last_record_updated(program, point, end),
            final(self)@.valid(),
    {
        match last_record_mut(&mut self.records) {
            Some(record) => {
                record.update(program, point, end);
            },
            None => {},
        }
    }

    /// Tells clients of the recorder.
    pub fn get_model(&self, now: JstTime) -> (model: TimeshiftRecorderModel)
        ensures
            model@ == self@.model(now),
    {
        let start_time = if self.points.len() > 0 {
            self.points[0].timestamp
        } else {
            now
        };
        let end_time = if self.points.len() > 0 {
            self.points[self.points.len() - 1].timestamp
        } else {
            now
        };
        TimeshiftRecorderModel {
            name: self.name.clone(),
            service: self.service.clone(),
            start_time,
            end_time,
            recording: self.is_active(),
        }
    }

    /// Tells whether all of the records have a size.
    pub fn has_sized_records(&self) -> (sized: bool)
        requires
            self@.config.valid(),
        ensures
            sized == self@.records_fit(),
    {
        let file_size = self.config.max_file_size();
        let len = records_len(&self.records);
        let mut i: usize = 0;
        while i < len
            invariant
                i <= len,
                len == self@.records.len(),
                file_size == self@.config.spec_max_file_size(),
                forall|j: int|
                    0 <= j < i ==> (#[trigger] self@.records[j]).1.fits(file_size as int),
            decreases len - i,
        {
            match get_record_at(&self.records, i) {
                Some(record) => {
                    if !record.is_inside(file_size) {
                        return false;
                    }
                },
                None => {},
            }
            i += 1;
        }
        true
    }

    /// Tells clients of the records, from the oldest to the newest.
    pub fn get_record_models(&self) -> (models: Vec<TimeshiftRecordModel>)
        requires
            self@.config.valid(),
            self@.records_fit(),
        ensures
            models@.map_values(|model: TimeshiftRecordModel| model@) == self@.record_models(),
    {
        let len = records_len(&self.records);
        let mut models: Vec<TimeshiftRecordModel> = Vec::new();
        let mut i: usize = 0;
        while i < len
            invariant
                i <= len,
                len == self@.records.len(),
                self@.config.valid(),
                self@.records_fit(),
                models@.len() == i,
                forall|j: int| 0 <= j < i ==> (#[trigger] models@[j])@ == self@.record_models()[j],
            decreases len - i,
        {
            match get_record_at(&self.records, i) {
                Some(record) => {
                    proof {
                        assert(self@.records[i as int].1.fits(self@.config.spec_max_file_size()));
                    }
                    models.push(record.get_model(&self.config));
                },
                None => {},
            }
            i += 1;
        }
        proof {
            assert(models@.map_values(|model: TimeshiftRecordModel| model@)
                =~= self@.record_models());
        }
        models
    }
}

/// The expired records come first: every one of them ends no later than the instant, and the
/// record that follows them, if there is any, ends later.
pub proof fn expired_records_come_first(records: Seq<(i64, TimeshiftRecord)>, timestamp: JstTime)
    ensures
        ({
            let n = num_expired(records, timestamp);
            &&& 0 <= n <= records.len()
            &&& forall|i: int|
                0 <= i < n ==> !(#[trigger] records[i]).1.end.timestamp.after(timestamp)
            &&& n < records.len() ==> records[n].1.end.timestamp.after(timestamp)
        }),
    decreases records.len(),
{
    if records.len() > 0 && !records[0].1.end.timestamp.after(timestamp) {
        let rest = records.drop_first();
        expired_records_come_first(rest, timestamp);
        let n = num_expired(records, timestamp);
        assert forall|i: int| 0 <= i < n implies !(
        #[trigger] records[i]).1.end.timestamp.after(timestamp) by {
            if i > 0 {
                assert(rest[i - 1] == records[i]);
            }
        }
        if n < records.len() {
            assert(rest[n - 1] == records[n]);
        }
    }
}

/// A record that ends no later than the instant is not preceded by one that ends later.
pub open spec fn expire_in_order(
    records: Seq<(i64, TimeshiftRecord)>,
    timestamp: JstTime,
) -> bool {
    forall|i: int, j: int|
        0 <= i < j < records.len() && (#[trigger] records[i]).1.end.timestamp.after(timestamp)
            ==> (#[trigger] records[j]).1.end.timestamp.after(timestamp)
}

/// Records that end in the order in which they were started expire in that order.
pub proof fn records_that_end_in_order_expire_in_order(
    records: Seq<(i64, TimeshiftRecord)>,
    timestamp: JstTime,
)
    requires
        forall|i: int, j: int|
            0 <= i < j < records.len() ==> !(#[trigger] records[i]).1.end.timestamp.after(
                (#[trigger] records[j]).1.end.timestamp,
            ),
    ensures
        expire_in_order(records, timestamp),
{
}

/// Purging keeps exactly the records that end later than the oldest chunk starts, as long as the
/// records expire in their order.
pub proof fn purging_drops_exactly_the_expired<T>(
    recorder: TimeshiftRecorderView<T>,
    i: int,
)
    requires
        recorder.points.len() > 0,
        expire_in_order(recorder.records, recorder.points[0].timestamp),
        0 <= i < recorder.records.len(),
    ensures
        ({
            let oldest = recorder.points[0].timestamp;
            let n = num_expired(recorder.records, oldest);
            recorder.records[i].1.end.timestamp.after(oldest) <==> (i >= n
                && recorder.purged().records[i - n] == recorder.records[i])
        }),
{
    let oldest = recorder.points[0].timestamp;
    expired_records_come_first(recorder.records, oldest);
    if i >= num_expired(recorder.records, oldest) {
        assert(recorder.records[num_expired(recorder.records, oldest)].1.end.timestamp.after(
            oldest,
        ));
    }
}

/// Once a full ring has taken a chunk, no record is left that is older than the oldest chunk,
/// as long as the records expire in their order.
pub proof fn full_ring_has_no_expired_record<T>(
    recorder: TimeshiftRecorderView<T>,
    point: TimeshiftPoint,
    i: int,
)
    requires
        recorder.valid(),
        recorder.can_take_chunk(point),
        recorder.points.len() == recorder.config.spec_max_chunks(),
        expire_in_order(recorder.records, recorder.points[1].timestamp),
        0 <= i < recorder.after_chunk(point).records.len(),
    ensures
        recorder.after_chunk(point).records[i].1.end.timestamp.after(
            recorder.after_chunk(point).points[0].timestamp,
        ),
{
    let shortened = recorder.without_first_chunk();
    let oldest = shortened.points[0].timestamp;
    let n = num_expired(shortened.records, oldest);
    expired_records_come_first(shortened.records, oldest);
    purging_drops_exactly_the_expired(shortened, n + i);
    assert(recorder.after_chunk(point).points[0] == shortened.points[0]);
}

/// A chunk moves the timeline on: its end is the new chunk, its length grows by one until the ring
/// is full, and stays the same from then on, when the oldest chunk is dropped.
pub proof fn chunk_moves_timeline_on<T>(
    recorder: TimeshiftRecorderView<T>,
    point: TimeshiftPoint,
    now: JstTime,
)
    requires
        recorder.valid(),
        recorder.can_take_chunk(point),
    ensures
        ({
            let after = recorder.after_chunk(point);
            &&& after.valid()
            &&& after.points.last() == point
            &&& after.model(now).end_time == point.timestamp
            &&& if recorder.points.len() < recorder.config.spec_max_chunks() {
                after.points.drop_last() == recorder.points && after.records == recorder.records
            } else {
                after.points.drop_last() == recorder.points.drop_first()
            }
        }),
{
    let after = recorder.after_chunk(point);
    assert(after.points.drop_last() =~= recorder.maintained().points);
    if recorder.points.len() >= recorder.config.spec_max_chunks() {
        let shortened = recorder.without_first_chunk();
        expired_records_come_first(shortened.records, shortened.points[0].timestamp);
    }
}

/// Live streaming is possible once two chunks have been started, whatever was recorded before.
pub proof fn two_chunks_make_live_streaming_possible<T>(
    recorder: TimeshiftRecorderView<T>,
    first: TimeshiftPoint,
    second: TimeshiftPoint,
)
    requires
        recorder.valid(),
        recorder.config.spec_max_chunks() >= 2,
        recorder.can_take_chunk(first),
        second.pos % recorder.config.chunk_size as u64 == 0,
    ensures
        ({
            let after = recorder.after_chunk(first).after_chunk(second);
            &&& recorder.after_chunk(first).can_take_chunk(second)
            &&& after.live_point(None) == Ok::<TimeshiftPoint, MirakcError>(after.points[0])
        }),
{
}

/// A program that has started can be found under the second in which it started, as a record that
/// is empty and still growing.
pub proof fn started_record_can_be_found<T>(
    recorder: TimeshiftRecorderView<T>,
    quad: EventQuad,
    event: EitEvent,
    point: TimeshiftPoint,
    file_size: int,
)
    ensures
        ({
            let after = recorder.after_event_start(quad, event, point);
            find_record(after.records, point.timestamp.secs) matches Some(record) && {
                &&& record.id.value == point.timestamp.secs
                &&& record.program == program_of_event(quad, event)
                &&& record.recording
                &&& record.spec_size(file_size) == 0
                &&& record.spec_range(0, 0) is Err
            }
        }),
{
    let after = recorder.after_event_start(quad, event, point);
    lemma_key_index(recorder.records, point.timestamp.secs);
    lemma_key_index(after.records, point.timestamp.secs);
    match key_index(recorder.records, point.timestamp.secs) {
        Some(i) => {
            assert(after.records[i].0 == point.timestamp.secs);
            let k = key_index(after.records, point.timestamp.secs)->0;
            if k < i {
                assert(after.records[k] == recorder.records[k]);
                assert(keys_of(recorder.records)[k]
                    == point.timestamp.secs);
            }
            if k > i {
                assert(keys_of(after.records)[i]
                    == point.timestamp.secs);
            }
            keys_of(recorder.records).index_of_first_ensures(
                point.timestamp.secs,
            );
            keys_of(after.records).index_of_first_ensures(
                point.timestamp.secs,
            );
        },
        None => {
            assert(after.records.last().0 == point.timestamp.secs);
            let k = key_index(after.records, point.timestamp.secs)->0;
            if k < recorder.records.len() {
                assert(after.records[k] == recorder.records[k]);
            }
        },
    }
}

/// The end of a program completes the newest record and leaves the others alone: the record keeps
/// its identifier and its start, ends at the point, and its range tells its final size.
pub proof fn ended_record_is_complete<T>(
    recorder: TimeshiftRecorderView<T>,
    quad: EventQuad,
    event: EitEvent,
    point: TimeshiftPoint,
)
    requires
        recorder.records.len() > 0,
    ensures
        ({
            let before = recorder.records.last().1;
            let after = recorder.after_event_end(quad, event, point);
            let record = after.records.last().1;
            &&& after.records.drop_last() == recorder.records.drop_last()
            &&& record.id == before.id && record.start == before.start && record.end == point
            &&& !record.recording
            &&& forall|first: int, size: int|
                0 <= first < size <= u64::MAX ==> ((#[trigger] record.spec_range(
                    first,
                    size,
                )) matches Ok(range) && range.size == Some(size as u64))
        }),
{
    let after = recorder.after_event_end(quad, event, point);
    assert(after.records.drop_last() =~= recorder.records.drop_last());
}

/// The progress of a program never completes a record.
pub proof fn updated_record_keeps_growing<T>(
    recorder: TimeshiftRecorderView<T>,
    quad: EventQuad,
    event: EitEvent,
    point: TimeshiftPoint,
)
    requires
        recorder.records.len() > 0,
    ensures
        ({
            let after = recorder.after_event_update(quad, event, point);
            &&& after.records.drop_last() == recorder.records.drop_last()
            &&& after.records.last().1.recording == recorder.records.last().1.recording
            &&& after.records.last().1.end == point
        }),
{
    let after = recorder.after_event_update(quad, event, point);
    assert(after.records.drop_last() =~= recorder.records.drop_last());
}

/// Taking a chunk in keeps every record that ends later than the oldest chunk that is left, as it
/// is and in its place.
///
/// A ring with room for another chunk keeps all of its chunks and records. A full one loses its
/// oldest chunk, and with it the records from the oldest on that end no later than the next chunk
/// starts, up to the first that ends later. The new chunk comes last, and nothing else changes.
pub proof fn chunk_keeps_what_ends_later<T>(
    recorder: TimeshiftRecorderView<T>,
    point: TimeshiftPoint,
)
    requires
        recorder.points.len() <= recorder.config.num_chunks - recorder.config.num_reserves,
        recorder.points.len() == recorder.config.num_chunks - recorder.config.num_reserves
            ==> recorder.points.len() >= 2,
    ensures
        ({
            let after = recorder.after_chunk(point);
            let full = recorder.points.len() == recorder.config.num_chunks
                - recorder.config.num_reserves;
            let oldest = after.points[0].timestamp;
            let dropped = recorder.records.len() - after.records.len();
            &&& 0 <= dropped
            &&& after.records == recorder.records.skip(dropped)
            &&& !full ==> dropped == 0
            &&& forall|i: int|
                0 <= i < dropped ==> !(#[trigger] recorder.records[i]).1.end.timestamp.after(oldest)
            &&& full && dropped < recorder.records.len()
                ==> recorder.records[dropped].1.end.timestamp.after(oldest)
            &&& forall|i: int|
                0 <= i < recorder.records.len() && (
                #[trigger] recorder.records[i]).1.end.timestamp.after(oldest) ==> dropped <= i
                    && after.records[i - dropped] == recorder.records[i]
            &&& after.points == (if full {
                recorder.points.skip(1)
            } else {
                recorder.points
            }).push(point)
            &&& after.name == recorder.name && after.config == recorder.config
            &&& after.service == recorder.service && after.session == recorder.session
        }),
{
    maintaining_keeps_what_ends_later(recorder);
    let after = recorder.after_chunk(point);
    let maintained = recorder.maintained();
    if maintained.points.len() > 0 {
        assert(after.points[0] == maintained.points[0]);
    } else {
        assert(recorder.records.skip(0) =~= recorder.records);
    }
}

/// Making room for another chunk keeps every record that ends later than the oldest chunk that is
/// left, as it is and in its place, and drops nothing from a ring that has room.
pub proof fn maintaining_keeps_what_ends_later<T>(recorder: TimeshiftRecorderView<T>)
    requires
        recorder.points.len() <= recorder.config.num_chunks - recorder.config.num_reserves,
        recorder.points.len() == recorder.config.num_chunks - recorder.config.num_reserves
            ==> recorder.points.len() >= 2,
    ensures
        ({
            let after = recorder.maintained();
            let full = recorder.points.len() == recorder.config.num_chunks
                - recorder.config.num_reserves;
            let oldest = after.points[0].timestamp;
            let dropped = recorder.records.len() - after.records.len();
            &&& !full ==> after == recorder
            &&& full ==> {
                &&& 0 <= dropped
                &&& after.records == recorder.records.skip(dropped)
                &&& forall|i: int|
                    0 <= i < dropped ==> !(#[trigger] recorder.records[i]).1.end.timestamp.after(
                        oldest,
                    )
                &&& dropped < recorder.records.len()
                    ==> recorder.records[dropped].1.end.timestamp.after(oldest)
                &&& after.points == recorder.points.skip(1)
                &&& after.name == recorder.name && after.config == recorder.config
                &&& after.service == recorder.service && after.session == recorder.session
            }
        }),
{
    if recorder.points.len() >= recorder.config.spec_max_chunks() {
        let shortened = recorder.without_first_chunk();
        assert(shortened.points =~= recorder.points.skip(1));
        purging_keeps_what_ends_later(shortened);
    }
}

/// Purging drops the records from the oldest on that end no later than the oldest chunk starts, up
/// to the first that ends later, and nothing else.
pub proof fn purging_keeps_what_ends_later<T>(recorder: TimeshiftRecorderView<T>)
    requires
        recorder.points.len() > 0,
    ensures
        ({
            let after = recorder.purged();
            let oldest = recorder.points[0].timestamp;
            let dropped = recorder.records.len() - after.records.len();
            &&& 0 <= dropped
            &&& after.records == recorder.records.skip(dropped)
            &&& forall|i: int|
                0 <= i < dropped ==> !(#[trigger] recorder.records[i]).1.end.timestamp.after(oldest)
            &&& dropped < recorder.records.len()
                ==> recorder.records[dropped].1.end.timestamp.after(oldest)
            &&& after.points == recorder.points
            &&& after.name == recorder.name && after.config == recorder.config
            &&& after.service == recorder.service && after.session == recorder.session
        }),
{
    expired_records_come_first(recorder.records, recorder.points[0].timestamp);
}

/// Dropping the oldest chunk keeps the others, and the records.
pub proof fn dropping_a_chunk_keeps_the_rest<T>(
    recorder: TimeshiftRecorderView<T>,
    point: TimeshiftPoint,
)
    requires
        recorder.points.len() > 0,
    ensures
        ({
            let after = recorder.without_first_chunk();
            &&& recorder.points == seq![recorder.points[0]] + after.points
            &&& after.records == recorder.records
            &&& after.name == recorder.name && after.config == recorder.config
            &&& after.service == recorder.service && after.session == recorder.session
        }),
        ({
            let after = recorder.with_chunk(point);
            &&& after.points == recorder.points + seq![point]
            &&& after.records == recorder.records
            &&& after.name == recorder.name && after.config == recorder.config
            &&& after.service == recorder.service && after.session == recorder.session
        }),
{
    assert(recorder.points =~= seq![recorder.points[0]] + recorder.points.drop_first());
    assert(recorder.points.push(point) =~= recorder.points + seq![point]);
}

/// The start of a program adds a record of it, or replaces the one that started in the same second.
/// The record is empty, starts and ends at the point, and is growing. No other record changes, and
/// no chunk does.
pub proof fn start_of_a_program_adds_its_record<T>(
    recorder: TimeshiftRecorderView<T>,
    quad: EventQuad,
    event: EitEvent,
    point: TimeshiftPoint,
)
    requires
        forall|i: int, j: int|
            0 <= i < j < recorder.records.len() ==> (#[trigger] recorder.records[i]).0 != (
            #[trigger] recorder.records[j]).0,
    ensures
        ({
            let after = recorder.after_event_start(quad, event, point);
            let key = point.timestamp.secs;
            let known = exists|i: int|
                0 <= i < recorder.records.len() && (#[trigger] recorder.records[i]).0 == key;
            &&& after.records.len() == recorder.records.len() + if known {
                0int
            } else {
                1int
            }
            &&& forall|i: int|
                0 <= i < recorder.records.len() && (#[trigger] recorder.records[i]).0 != key
                    ==> after.records[i] == recorder.records[i]
            &&& forall|i: int|
                0 <= i < after.records.len() && (i < recorder.records.len()
                    ==> recorder.records[i].0 == key) ==> {
                    &&& (#[trigger] after.records[i]).0 == key
                    &&& after.records[i].1.id.value == key
                    &&& after.records[i].1.program == program_of_event(quad, event)
                    &&& after.records[i].1.start == point
                    &&& after.records[i].1.end == point
                    &&& after.records[i].1.recording
                }
            &&& after.points == recorder.points
            &&& after.name == recorder.name && after.config == recorder.config
            &&& after.service == recorder.service && after.session == recorder.session
        }),
{
    let key = point.timestamp.secs;
    lemma_key_index(recorder.records, key);
    if let Some(k) = key_index(recorder.records, key) {
        assert(recorder.records[k].0 == key);
        assert forall|i: int|
            0 <= i < recorder.records.len() && (#[trigger] recorder.records[i]).0
                == key implies i == k by {
            if i < k {
                assert(recorder.records[i].0 != recorder.records[k].0);
            }
            if i > k {
                assert(recorder.records[k].0 != recorder.records[i].0);
            }
        }
    }
}

/// The progress or the end of a program moves the end of the newest record, and tells of the program
/// what is broadcast now. Only the end makes the record complete. Nothing else changes, and nothing
/// at all if there is no record.
pub proof fn progress_of_a_program_moves_the_newest_record<T>(
    recorder: TimeshiftRecorderView<T>,
    quad: EventQuad,
    event: EitEvent,
    point: TimeshiftPoint,
    end: bool,
)
    ensures
        ({
            let after = if end {
                recorder.after_event_end(quad, event, point)
            } else {
                recorder.after_event_update(quad, event, point)
            };
            &&& after.records.len() == recorder.records.len()
            &&& forall|i: int|
                0 <= i < recorder.records.len() - 1 ==> after.records[i]
                    == #[trigger] recorder.records[i]
            &&& recorder.records.len() > 0 ==> {
                let old_record = recorder.records.last();
                let record = after.records.last();
                &&& record.0 == old_record.0
                &&& record.1.id == old_record.1.id
                &&& record.1.start == old_record.1.start
                &&& record.1.end == point
                &&& record.1.program == program_of_event(quad, event)
                &&& record.1.recording == (old_record.1.recording && !end)
            }
            &&& after.points == recorder.points
            &&& after.name == recorder.name && after.config == recorder.config
            &&& after.service == recorder.service && after.session == recorder.session
        }),
{
}

/// A live stream needs two chunks. It starts at the oldest chunk, or at the start of the record that
/// is asked for, if there is such a record.
pub proof fn live_stream_starts_where_it_is_asked_to<T>(
    recorder: TimeshiftRecorderView<T>,
    id: TimeshiftRecordId,
    i: int,
)
    requires
        forall|i: int, j: int|
            0 <= i < j < recorder.records.len() ==> (#[trigger] recorder.records[i]).0 != (
            #[trigger] recorder.records[j]).0,
    ensures
        recorder.points.len() < 2 ==> {
            &&& recorder.live_point(None) == Err::<TimeshiftPoint, _>(MirakcError::RecordNotFound)
            &&& recorder.live_point(Some(id)) == Err::<TimeshiftPoint, _>(
                MirakcError::RecordNotFound,
            )
        },
        recorder.points.len() >= 2 ==> {
            &&& recorder.live_point(None) == Ok::<_, MirakcError>(recorder.points[0])
            &&& 0 <= i < recorder.records.len() && recorder.records[i].0 == id.value
                ==> recorder.live_point(Some(id)) == Ok::<_, MirakcError>(
                recorder.records[i].1.start,
            )
            &&& (forall|j: int|
                0 <= j < recorder.records.len() ==> (#[trigger] recorder.records[j]).0 != id.value)
                ==> recorder.live_point(Some(id)) == Err::<TimeshiftPoint, _>(
                MirakcError::ProgramNotFound,
            )
        },
{
    lemma_key_index(recorder.records, id.value);
    if let Some(k) = key_index(recorder.records, id.value) {
        if 0 <= i < recorder.records.len() && recorder.records[i].0 == id.value {
            if i < k {
                assert(recorder.records[i].0 != recorder.records[k].0);
            }
            if k < i {
                assert(recorder.records[k].0 != recorder.records[i].0);
            }
        }
    }
}

/// Clients are told of a recorder what it is: its timeline goes from its oldest chunk to its newest,
/// and is empty if there is none, and it records exactly while its session is active.
pub proof fn clients_are_told_what_a_recorder_is<T>(
    recorder: TimeshiftRecorderView<T>,
    now: JstTime,
)
    ensures
        ({
            let model = recorder.model(now);
            &&& model.name == recorder.name
            &&& model.service == recorder.service
            &&& recorder.points.len() == 0 ==> model.start_time == now && model.end_time == now
            &&& recorder.points.len() > 0 ==> model.start_time == recorder.points[0].timestamp
                && model.end_time == recorder.points[recorder.points.len() - 1].timestamp
            &&& model.recording <==> recorder.session matches TimeshiftRecorderSession::Active(_)
        }),
{
}

/// Clients are told of every record of a recorder, in the order in which they were started.
pub proof fn clients_are_told_of_every_record<T>(recorder: TimeshiftRecorderView<T>, i: int)
    ensures
        recorder.record_models().len() == recorder.records.len(),
        0 <= i < recorder.records.len() ==> {
            let record = recorder.records[i].1;
            let model = recorder.record_models()[i];
            let file_size = recorder.config.chunk_size * recorder.config.num_chunks;
            &&& model.id == record.id
            &&& model.program == record.program@
            &&& model.start_time == record.start.timestamp
            &&& model.end_time == record.end.timestamp
            &&& model.size == bytes_between(record.start, record.end, file_size)
            &&& model.recording == record.recording
        },
{
}

/// What recorders and their models are made of leaves nothing out.
pub proof fn recorder_views_leave_nothing_out<T>(
    recorder: TimeshiftRecorder<T>,
    model: TimeshiftRecorderModel,
)
    ensures
        recorder@.name == recorder.name@,
        recorder@.config == recorder.config,
        recorder@.service == recorder.service@,
        recorder@.records == record_entries(recorder.records),
        recorder@.points == recorder.points@,
        recorder@.session == recorder.session,
        model@.name == model.name@,
        model@.service == model.service@,
        model@.start_time == model.start_time,
        model@.end_time == model.end_time,
        model@.recording == model.recording,
{
}

/// A new recorder is named and configured as it is told, and has nothing yet.
pub proof fn new_recorder_has_nothing_yet<T>(
    name: Seq<char>,
    config: TimeshiftConfig,
    service: EpgServiceView,
)
    ensures
        ({
            let recorder = new_recorder::<T>(name, config, service);
            &&& recorder.name == name
            &&& recorder.config == config
            &&& recorder.service == service
            &&& recorder.records.len() == 0
            &&& recorder.points.len() == 0
            &&& recorder.session matches TimeshiftRecorderSession::Inactive
        }),
{
}

/// A live stream is read from the file of its recorder, in its name and from the point that it is
/// asked for.
pub proof fn live_stream_is_read_from_the_recorder<T>(
    recorder: TimeshiftRecorder<T>,
    record_id: Option<TimeshiftRecordId>,
    source: Result<TimeshiftStreamSource, MirakcError>,
)
    requires
        call_ensures(
            TimeshiftRecorder::<T>::create_live_stream_source,
            (&recorder, record_id),
            source,
        ),
    ensures
        source is Ok <==> recorder@.live_point(record_id) is Ok,
        source matches Ok(source) ==> {
            &&& source.name == recorder.name
            &&& source.file == recorder.config.file
            &&& recorder@.live_point(record_id) == Ok::<_, MirakcError>(source.point)
        },
        source matches Err(error) ==> recorder@.live_point(record_id) == Err::<
            TimeshiftPoint,
            _,
        >(error),
{
}

/// A stream of a record is that of the record that is asked for, in the name of its recorder and
/// with its configuration.
pub proof fn record_stream_is_that_of_the_record<T>(
    recorder: TimeshiftRecorder<T>,
    record_id: TimeshiftRecordId,
    start_pos: Option<u64>,
    source: Result<TimeshiftRecordStreamSource, MirakcError>,
    i: int,
)
    requires
        call_ensures(
            TimeshiftRecorder::<T>::create_record_stream_source,
            (&recorder, record_id, start_pos),
            source,
        ),
        forall|i: int, j: int|
            0 <= i < j < recorder@.records.len() ==> (#[trigger] recorder@.records[i]).0 != (
            #[trigger] recorder@.records[j]).0,
    ensures
        0 <= i < recorder@.records.len() && recorder@.records[i].0 == record_id.value ==> source
            == recorder@.records[i].1.spec_source(recorder.name, recorder.config, start_pos),
        (forall|j: int|
            0 <= j < recorder@.records.len() ==> (#[trigger] recorder@.records[j]).0
                != record_id.value) ==> source == Err::<TimeshiftRecordStreamSource, _>(
            MirakcError::ProgramNotFound,
        ),
{
    let records = recorder@.records;
    lemma_key_index(records, record_id.value);
    if let Some(k) = key_index(records, record_id.value) {
        if 0 <= i < records.len() && records[i].0 == record_id.value {
            if i < k {
                assert(records[i].0 != records[k].0);
            }
            if k < i {
                assert(records[k].0 != records[i].0);
            }
        }
    }
}

/// The model of a recorder tells its timeline and whether it records.
pub proof fn model_tells_the_timeline<T>(
    recorder: TimeshiftRecorder<T>,
    now: JstTime,
    model: TimeshiftRecorderModel,
)
    requires
        call_ensures(TimeshiftRecorder::<T>::get_model, (&recorder, now), model),
    ensures
        model.name@ == recorder.name@,
        model.service@ == recorder.service@,
        recorder.points@.len() == 0 ==> model.start_time == now && model.end_time == now,
        recorder.points@.len() > 0 ==> model.start_time == recorder.points@[0].timestamp
            && model.end_time == recorder.points@[recorder.points@.len() - 1].timestamp,
        model.recording <==> recorder.session is Active,
{
    clients_are_told_what_a_recorder_is(recorder@, now);
}

/// A recorder that takes a chunk in keeps every record that ends later than the oldest chunk that is
/// left, as it is and in its place, and drops none while its ring has room. Its chunks are those
/// that it had, without the oldest of a full ring, and the new one behind them.
pub proof fn recorder_keeps_what_ends_later<T>(
    recorder: &mut TimeshiftRecorder<T>,
    point: TimeshiftPoint,
)
    requires
        call_ensures(TimeshiftRecorder::<T>::handle_chunk, (recorder, point), ()),
        old(recorder)@.valid(),
        old(recorder)@.can_take_chunk(point),
    ensures
        ({
            let before = old(recorder)@;
            let after = final(recorder)@;
            let full = before.points.len() == before.config.num_chunks
                - before.config.num_reserves;
            let oldest = after.points[0].timestamp;
            let dropped = before.records.len() - after.records.len();
            &&& 0 <= dropped
            &&& after.records == before.records.skip(dropped)
            &&& !full ==> dropped == 0
            &&& forall|i: int|
                0 <= i < dropped ==> !(#[trigger] before.records[i]).1.end.timestamp.after(oldest)
            &&& full && dropped < before.records.len()
                ==> before.records[dropped].1.end.timestamp.after(oldest)
            &&& after.points == (if full {
                before.points.skip(1)
            } else {
                before.points
            }).push(point)
            &&& after.name == before.name && after.config == before.config
            &&& after.service == before.service && after.session == before.session
        }),
{
    chunk_keeps_what_ends_later(old(recorder)@, point);
}

/// A recorder that makes room, or purges, keeps every record that ends later than the oldest chunk
/// that is left, as it is and in its place.
pub proof fn maintained_recorder_keeps_what_ends_later<T>(recorder: &mut TimeshiftRecorder<T>)
    requires
        call_ensures(TimeshiftRecorder::<T>::maintain, (recorder,), ()),
        old(recorder)@.valid(),
        old(recorder)@.points.len() >= 2,
    ensures
        ({
            let before = old(recorder)@;
            let after = final(recorder)@;
            let full = before.points.len() == before.config.num_chunks
                - before.config.num_reserves;
            let oldest = after.points[0].timestamp;
            let dropped = before.records.len() - after.records.len();
            &&& !full ==> after == before
            &&& full ==> {
                &&& 0 <= dropped
                &&& after.records == before.records.skip(dropped)
                &&& forall|i: int|
                    0 <= i < dropped ==> !(#[trigger] before.records[i]).1.end.timestamp.after(
                        oldest,
                    )
                &&& dropped < before.records.len()
                    ==> before.records[dropped].1.end.timestamp.after(oldest)
                &&& after.points == before.points.skip(1)
            }
            &&& after.name == before.name && after.config == before.config
            &&& after.service == before.service && after.session == before.session
        }),
{
    maintaining_keeps_what_ends_later(old(recorder)@);
}

/// A recorder that purges drops the records from the oldest on that end no later than its oldest
/// chunk starts, up to the first that ends later.
pub proof fn purged_recorder_keeps_what_ends_later<T>(recorder: &mut TimeshiftRecorder<T>)
    requires
        call_ensures(TimeshiftRecorder::<T>::purge_expired_records, (recorder,), ()),
        old(recorder)@.points.len() > 0,
    ensures
        ({
            let before = old(recorder)@;
            let after = final(recorder)@;
            let oldest = before.points[0].timestamp;
            let dropped = before.records.len() - after.records.len();
            &&& 0 <= dropped
            &&& after.records == before.records.skip(dropped)
            &&& forall|i: int|
                0 <= i < dropped ==> !(#[trigger] before.records[i]).1.end.timestamp.after(oldest)
            &&& dropped < before.records.len()
                ==> before.records[dropped].1.end.timestamp.after(oldest)
            &&& after.points == before.points
            &&& after.name == before.name && after.config == before.config
            &&& after.service == before.service && after.session == before.session
        }),
{
    purging_keeps_what_ends_later(old(recorder)@);
}

/// A recorder that is told of the start of a program has a growing record of it, from the point on,
/// and keeps its other records and its chunks.
pub proof fn recorder_starts_a_record<T>(
    recorder: &mut TimeshiftRecorder<T>,
    quad: EventQuad,
    event: EitEvent,
    point: TimeshiftPoint,
)
    requires
        call_ensures(
            TimeshiftRecorder::<T>::handle_event_start,
            (recorder, quad, event, point),
            (),
        ),
        old(recorder)@.valid(),
    ensures
        ({
            let before = old(recorder)@;
            let after = final(recorder)@;
            let key = point.timestamp.secs;
            &&& forall|i: int|
                0 <= i < before.records.len() && (#[trigger] before.records[i]).0 != key
                    ==> after.records[i] == before.records[i]
            &&& forall|i: int|
                0 <= i < after.records.len() && (i < before.records.len() ==> before.records[i].0
                    == key) ==> {
                    &&& (#[trigger] after.records[i]).0 == key
                    &&& after.records[i].1.id.value == key
                    &&& after.records[i].1.program == program_of_event(quad, event)
                    &&& after.records[i].1.start == point
                    &&& after.records[i].1.end == point
                    &&& after.records[i].1.recording
                }
            &&& before.records.len() <= after.records.len() <= before.records.len() + 1
            &&& after.records.len() == before.records.len() <==> exists|i: int|
                0 <= i < before.records.len() && (#[trigger] before.records[i]).0 == key
            &&& after.points == before.points
            &&& after.name == before.name && after.config == before.config
            &&& after.service == before.service && after.session == before.session
        }),
{
    start_of_a_program_adds_its_record(old(recorder)@, quad, event, point);
}

/// A recorder that is told of the progress of a program moves the end of its newest record, and
/// completes it if the program has ended. It keeps its other records and its chunks.
pub proof fn recorder_moves_its_newest_record<T>(
    updated: &mut TimeshiftRecorder<T>,
    ended: &mut TimeshiftRecorder<T>,
    quad: EventQuad,
    event: EitEvent,
    point: TimeshiftPoint,
)
    requires
        call_ensures(
            TimeshiftRecorder::<T>::handle_event_update,
            (updated, quad, event, point),
            (),
        ),
        call_ensures(TimeshiftRecorder::<T>::handle_event_end, (ended, quad, event, point), ()),
        old(updated)@ == old(ended)@,
    ensures
        ({
            let before = old(updated)@;
            let growing = final(updated)@;
            let complete = final(ended)@;
            &&& growing.records.len() == before.records.len()
            &&& complete.records.len() == before.records.len()
            &&& forall|i: int|
                0 <= i < before.records.len() - 1 ==> growing.records[i]
                    == #[trigger] before.records[i] && complete.records[i] == before.records[i]
            &&& before.records.len() > 0 ==> {
                let old_record = before.records.last().1;
                let record = growing.records.last().1;
                &&& growing.records.last().0 == before.records.last().0
                &&& record.id == old_record.id && record.start == old_record.start
                &&& record.end == point && record.program == program_of_event(quad, event)
                &&& record.recording == old_record.recording
                &&& complete.records.last() == (
                    before.records.last().0,
                    TimeshiftRecord { recording: false, ..record },
                )
            }
            &&& growing.points == before.points && complete.points == before.points
            &&& growing.name == before.name && complete.name == before.name
            &&& growing.config == before.config && complete.config == before.config
            &&& growing.service == before.service && complete.service == before.service
            &&& growing.session == before.session && complete.session == before.session
        }),
{
    progress_of_a_program_moves_the_newest_record(old(updated)@, quad, event, point, false);
    progress_of_a_program_moves_the_newest_record(old(ended)@, quad, event, point, true);
}

/// A recorder that is told that a recording has started or stopped stays as it is.
pub proof fn recorder_stays_when_a_recording_starts_or_stops<T>(
    started: &mut TimeshiftRecorder<T>,
    stopped: &mut TimeshiftRecorder<T>,
    reset: bool,
)
    requires
        call_ensures(TimeshiftRecorder::<T>::start_recording, (started,), ()),
        call_ensures(TimeshiftRecorder::<T>::stop_recording, (stopped, reset), ()),
    ensures
        *final(started) == *old(started),
        *final(stopped) == *old(stopped),
{
}

} // verus!
