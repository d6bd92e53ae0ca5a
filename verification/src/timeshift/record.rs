//! The record of a program in the ring of a timeshift recorder.

use crate::config::TimeshiftConfig;
use crate::epg::{EpgProgram, EpgProgramView};
use crate::error::MirakcError;
use crate::models::TimeshiftRecordId;
use crate::mpeg_ts_stream::MpegTsStreamRange;
use crate::time::JstTime;
use crate::timeshift::source::TimeshiftRecordStreamSource;
use vstd::prelude::*;

verus! {

/// A point on the timeline of a recorder: when something was recorded, and where in the ring.
#[derive(Clone, Copy, Debug, PartialEq, Eq, Structural)]
pub struct TimeshiftPoint {
    pub timestamp: JstTime,
    pub pos: u64,
}

/// The record of a program.
#[derive(Debug)]
pub struct TimeshiftRecord {
    pub id: TimeshiftRecordId,
    pub program: EpgProgram,
    pub start: TimeshiftPoint,
    pub end: TimeshiftPoint,
    pub recording: bool,
}

/// What clients are told of a record.
#[derive(Debug)]
pub struct TimeshiftRecordModel {
    pub id: TimeshiftRecordId,
    pub program: EpgProgram,
    pub start_time: JstTime,
    pub end_time: JstTime,
    pub size: u64,
    pub recording: bool,
}

/// What a record model is made of.
#[verifier::ext_equal]
pub struct TimeshiftRecordModelView {
    pub id: TimeshiftRecordId,
    pub program: EpgProgramView,
    pub start_time: JstTime,
    pub end_time: JstTime,
    pub size: int,
    pub recording: bool,
}

impl View for TimeshiftRecordModel {
    type V = TimeshiftRecordModelView;

    open spec fn view(&self) -> TimeshiftRecordModelView {
        TimeshiftRecordModelView {
            id: self.id,
            program: self.program@,
            start_time: self.start_time,
            end_time: self.end_time,
            size: self.size as int,
            recording: self.recording,
        }
    }
}

impl TimeshiftRecord {
    /// A record that ends before it starts has wrapped around the end of the ring, so it must
    /// start inside of the ring.
    pub open spec fn fits(self, file_size: int) -> bool {
        self.end.pos < self.start.pos ==> self.start.pos <= file_size
    }

    /// The number of bytes from the start of the record to its end, around the ring.
    pub open spec fn spec_size(self, file_size: int) -> int {
        if self.end.pos < self.start.pos {
            file_size - self.start.pos + self.end.pos
        } else {
            self.end.pos - self.start.pos
        }
    }

    /// The part of the record from `first` on. It is bound only when the record is complete.
    pub open spec fn spec_range(self, first: int, size: int) -> Result<
        MpegTsStreamRange,
        MirakcError,
    > {
        if first < size {
            Ok(
                MpegTsStreamRange {
                    first: first as u64,
                    last: (size - 1) as u64,
                    size: if self.recording {
                        None
                    } else {
                        Some(size as u64)
                    },
                },
            )
        } else {
            Err(MirakcError::OutOfRange)
        }
    }

    /// The position in the ring of the byte `offset` of the record.
    pub open spec fn spec_position(self, offset: Option<u64>, file_size: int) -> int {
        match offset {
            Some(offset) => (self.start.pos + offset) % file_size,
            None => self.start.pos as int,
        }
    }

    /// A stream of the record, or the error that the position is not inside of the record.
    pub open spec fn spec_source(
        self,
        recorder_name: String,
        config: TimeshiftConfig,
        start_pos: Option<u64>,
    ) -> Result<TimeshiftRecordStreamSource, MirakcError> {
        let file_size = config.spec_max_file_size();
        let first = match start_pos {
            Some(pos) => pos as int,
            None => 0,
        };
        match self.spec_range(first, self.spec_size(file_size)) {
            Ok(range) => Ok(
                TimeshiftRecordStreamSource {
                    recorder_name,
                    file: config.file,
                    id: self.id,
                    start: self.spec_position(start_pos, file_size) as u64,
                    range,
                },
            ),
            Err(error) => Err(error),
        }
    }

    /// What clients are told of the record.
    pub open spec fn spec_model(self, file_size: int) -> TimeshiftRecordModelView {
        TimeshiftRecordModelView {
            id: self.id,
            program: self.program@,
            start_time: self.start.timestamp,
            end_time: self.end.timestamp,
            size: self.spec_size(file_size),
            recording: self.recording,
        }
    }

    /// The record as it goes on to a point, or ends there.
    pub open spec fn updated(
        self,
        program: EpgProgram,
        point: TimeshiftPoint,
        end: bool,
    ) -> TimeshiftRecord {
        TimeshiftRecord {
            id: self.id,
            program,
            start: self.start,
            end: point,
            recording: self.recording && !end,
        }
    }

    /// A request for the record from `start_pos` on can be answered: no position overflows.
    pub open spec fn can_stream(self, config: TimeshiftConfig, start_pos: Option<u64>) -> bool {
        &&& config.valid()
        &&& self.fits(config.spec_max_file_size())
        &&& start_pos matches Some(pos) ==> self.start.pos + pos <= u64::MAX
            && config.spec_max_file_size() > 0
    }

    /// A record that starts at a point.
    pub fn new(id: TimeshiftRecordId, program: EpgProgram, point: TimeshiftPoint) -> (record:
        TimeshiftRecord)
        ensures
            record == (TimeshiftRecord { id, program, start: point, end: point, recording: true }),
    {
        TimeshiftRecord { id, program, start: point, end: point, recording: true }
    }

    /// Moves the end of the record to a point, and marks it as complete if it ends there.
    pub fn update(&mut self, program: EpgProgram, point: TimeshiftPoint, end: bool)
        ensures
            *final(self) == old(self).updated(program, point, end),
    {
        self.program = program;
        self.end = point;
        if end {
            self.recording = false;
        }
    }

    /// Tells whether the size of the record can be computed.
    pub fn is_inside(&self, file_size: u64) -> (inside: bool)
        ensures
            inside == self.fits(file_size as int),
    {
        self.end.pos >= self.start.pos || self.start.pos <= file_size
    }

    /// Tells whether a request for the record from `start_pos` on can be answered.
    pub fn is_streamable(&self, config: &TimeshiftConfig, start_pos: Option<u64>) -> (streamable:
        bool)
        ensures
            streamable == self.can_stream(*config, start_pos),
    {
        if !config.is_valid() {
            return false;
        }
        let file_size = config.max_file_size();
        self.is_inside(file_size) && match start_pos {
            Some(pos) => pos <= u64::MAX - self.start.pos && file_size > 0,
            None => true,
        }
    }

    /// Prepares a stream of the record, from its beginning or from a position in it.
    pub fn create_record_stream_source(
        &self,
        recorder_name: String,
        config: &TimeshiftConfig,
        start_pos: Option<u64>,
    ) -> (source: Result<TimeshiftRecordStreamSource, MirakcError>)
        requires
            self.can_stream(*config, start_pos),
        ensures
            source == self.spec_source(recorder_name, *config, start_pos),
    {
        let file = config.file.clone();
        let file_size = config.max_file_size();
        let id = self.id;
        let size = self.get_size(file_size);
        let (start, range) = match start_pos {
            Some(pos) => ((self.start.pos + pos) % file_size, self.make_range(pos, size)),
            None => (self.start.pos, self.make_range(0, size)),
        };
        match range {
            Ok(range) => Ok(
                TimeshiftRecordStreamSource { recorder_name, file, id, start, range },
            ),
            Err(error) => Err(error),
        }
    }

    /// Tells clients of the record.
    pub fn get_model(&self, config: &TimeshiftConfig) -> (model: TimeshiftRecordModel)
        requires
            config.valid(),
            self.fits(config.spec_max_file_size()),
        ensures
            model@ == self.spec_model(config.spec_max_file_size()),
    {
        TimeshiftRecordModel {
            id: self.id,
            program: self.program.clone(),
            start_time: self.start.timestamp,
            end_time: self.end.timestamp,
            size: self.get_size(config.max_file_size()),
            recording: self.recording,
        }
    }

    /// Gives the number of bytes from the start of the record to its end, around the ring.
    pub fn get_size(&self, file_size: u64) -> (size: u64)
        requires
            self.fits(file_size as int),
        ensures
            size == self.spec_size(file_size as int),
    {
        if self.end.pos < self.start.pos {
            file_size - self.start.pos + self.end.pos
        } else {
            self.end.pos - self.start.pos
        }
    }

    /// Gives the part of the record from `first` on.
    pub fn make_range(&self, first: u64, size: u64) -> (range: Result<
        MpegTsStreamRange,
        MirakcError,
    >)
        ensures
            range == self.spec_range(first as int, size as int),
    {
        if self.recording {
            MpegTsStreamRange::unbound(first, size)
        } else {
            MpegTsStreamRange::bound(first, size)
        }
    }
}

/// A record that lies inside of the ring is smaller than the ring.
pub proof fn record_is_smaller_than_ring(record: TimeshiftRecord, file_size: int)
    requires
        record.start.pos < file_size,
        record.end.pos < file_size,
    ensures
        record.fits(file_size),
        0 <= record.spec_size(file_size) < file_size,
{
}

/// A stream of a record ends where the record ends: reading the bytes of the range from the start
/// position, around the ring, leads to the end position, from wherever in the record it starts.
pub proof fn record_stream_ends_at_record_end(
    record: TimeshiftRecord,
    start_pos: Option<u64>,
    file_size: int,
)
    requires
        file_size <= u64::MAX,
        record.fits(file_size),
        record.end.pos < file_size,
    ensures
        ({
            let first = match start_pos {
                Some(pos) => pos as int,
                None => 0,
            };
            let size = record.spec_size(file_size);
            record.spec_range(first, size) matches Ok(range) ==> {
                &&& range.valid()
                &&& first + range.spec_bytes() == size
                &&& (record.spec_position(start_pos, file_size) + range.spec_bytes()) % file_size
                    == record.end.pos
            }
        }),
{
    let first = match start_pos {
        Some(pos) => pos as int,
        None => 0,
    };
    let size = record.spec_size(file_size);
    if first < size {
        let bytes = size - first;
        let start = record.start.pos as int;
        let around = start + size;
        assert(around % file_size == record.end.pos) by {
            if record.end.pos < record.start.pos {
                assert(around == record.end.pos + file_size);
                vstd::arithmetic::div_mod::lemma_mod_add_multiples_vanish(
                    record.end.pos as int,
                    file_size,
                );
            }
            vstd::arithmetic::div_mod::lemma_small_mod(record.end.pos as nat, file_size as nat);
        }
        if start_pos is Some {
            vstd::arithmetic::div_mod::lemma_add_mod_noop_right(bytes, start + first, file_size);
            assert(bytes + (start + first) == around);
        }
    }
}

/// Starting at an offset gives the same bytes as skipping them: byte `i` of a stream that starts
/// at `offset` is byte `offset + i` of a stream that starts at the beginning.
pub proof fn record_stream_offset_skips(
    record: TimeshiftRecord,
    offset: u64,
    i: int,
    file_size: int,
)
    requires
        file_size > 0,
    ensures
        (record.spec_position(Some(offset), file_size) + i) % file_size == (record.spec_position(
            None,
            file_size,
        ) + (offset + i)) % file_size,
{
    vstd::arithmetic::div_mod::lemma_add_mod_noop_right(
        i,
        record.start.pos + offset,
        file_size,
    );
    assert(i + (record.start.pos + offset) == record.start.pos + (offset + i));
}

/// The bytes from the start of a record to its end: straight on, or around the end of the file.
pub open spec fn bytes_between(start: TimeshiftPoint, end: TimeshiftPoint, file_size: int) -> int {
    if start.pos <= end.pos {
        end.pos - start.pos
    } else {
        (file_size - start.pos) + end.pos
    }
}

/// A stream of a record is given exactly if it starts before the end of the record. It starts as
/// many bytes behind the start of the record as is asked for, around the file, whether the record is
/// complete or still growing. It carries the rest of the record, so that reading it leads to the end
/// of the record, and tells the size of the record exactly if the record is complete.
pub proof fn record_stream_carries_the_rest_of_the_record(
    record: TimeshiftRecord,
    recorder_name: String,
    config: TimeshiftConfig,
    start_pos: Option<u64>,
)
    requires
        config.chunk_size * config.num_chunks <= u64::MAX,
        record.end.pos < record.start.pos ==> record.start.pos <= config.chunk_size
            * config.num_chunks,
        start_pos is Some ==> config.chunk_size * config.num_chunks > 0,
    ensures
        ({
            let file_size = config.chunk_size * config.num_chunks;
            let size = bytes_between(record.start, record.end, file_size);
            let offset: int = match start_pos {
                Some(pos) => pos as int,
                None => 0,
            };
            match record.spec_source(recorder_name, config, start_pos) {
                Ok(source) => {
                    &&& offset < size
                    &&& source.recorder_name == recorder_name
                    &&& source.file == config.file
                    &&& source.id == record.id
                    &&& source.start == match start_pos {
                        Some(pos) => (record.start.pos + pos) % file_size,
                        None => record.start.pos as int,
                    }
                    &&& source.range.first == offset
                    &&& source.range.last == size - 1
                    &&& source.range.size == if record.recording {
                        None::<u64>
                    } else {
                        Some(size as u64)
                    }
                    &&& source.range.valid()
                    &&& source.range.spec_bytes() == size - offset
                    &&& record.end.pos < file_size ==> (source.start + (size - offset)) % file_size
                        == record.end.pos
                },
                Err(error) => offset >= size && error is OutOfRange,
            }
        }),
{
    let file_size = config.spec_max_file_size();
    if start_pos is Some {
        vstd::arithmetic::div_mod::lemma_mod_bound(
            record.start.pos + start_pos->0,
            file_size,
        );
    }
    if record.end.pos < file_size {
        record_stream_ends_at_record_end(record, start_pos, file_size);
    }
}

/// Clients are told of a record what it is: its identifier, its program, when it started, when it
/// was last reported, how many bytes lie between, and whether it is still growing.
pub proof fn clients_are_told_what_a_record_is(record: TimeshiftRecord, file_size: int)
    ensures
        ({
            let model = record.spec_model(file_size);
            &&& model.id == record.id
            &&& model.program == record.program@
            &&& model.start_time == record.start.timestamp
            &&& model.end_time == record.end.timestamp
            &&& model.size == bytes_between(record.start, record.end, file_size)
            &&& model.recording == record.recording
        }),
{
}

/// What a record model is made of leaves nothing out.
pub proof fn record_model_view_leaves_nothing_out(model: TimeshiftRecordModel)
    ensures
        model@.id == model.id,
        model@.program == model.program@,
        model@.start_time == model.start_time,
        model@.end_time == model.end_time,
        model@.size == model.size,
        model@.recording == model.recording,
{
}

/// A report moves the end of a record and replaces its program. The identifier and the start stay,
/// and only an end makes the record complete.
pub proof fn reports_move_the_end_of_a_record(
    record: TimeshiftRecord,
    program: EpgProgram,
    point: TimeshiftPoint,
    end: bool,
)
    ensures
        ({
            let after = record.updated(program, point, end);
            &&& after.id == record.id
            &&& after.program == program
            &&& after.start == record.start
            &&& after.end == point
            &&& end ==> !after.recording
            &&& !end ==> after.recording == record.recording
        }),
{
}

/// A record inside of the ring can be streamed from any position, as long as the positions fit in
/// 64 bits.
pub proof fn records_in_the_ring_can_be_streamed(
    record: TimeshiftRecord,
    config: TimeshiftConfig,
    start_pos: Option<u64>,
)
    requires
        config.num_reserves <= config.num_chunks,
        config.chunk_size > 0,
        config.chunk_size * config.num_chunks <= u64::MAX,
        record.start.pos < config.chunk_size * config.num_chunks,
        start_pos matches Some(pos) ==> record.start.pos + pos <= u64::MAX,
    ensures
        record.can_stream(config, start_pos),
        record.fits(config.chunk_size * config.num_chunks),
{
}

/// The model of a record tells when it started, when it was last reported and how large it is, and
/// its stream starts and ends as the record does.
pub proof fn model_tells_start_end_and_size(
    record: TimeshiftRecord,
    config: TimeshiftConfig,
    model: TimeshiftRecordModel,
)
    requires
        call_ensures(TimeshiftRecord::get_model, (&record, &config), model),
    ensures
        model.id == record.id,
        model.program@ == record.program@,
        model.start_time == record.start.timestamp,
        model.end_time == record.end.timestamp,
        model.size == bytes_between(
            record.start,
            record.end,
            config.chunk_size * config.num_chunks,
        ),
        model.recording == record.recording,
{
    clients_are_told_what_a_record_is(record, config.spec_max_file_size());
}

/// The source that is made for a stream is the one that carries the rest of the record.
pub proof fn source_is_that_of_the_record(
    record: TimeshiftRecord,
    recorder_name: String,
    config: TimeshiftConfig,
    start_pos: Option<u64>,
    result: Result<TimeshiftRecordStreamSource, MirakcError>,
)
    requires
        call_ensures(
            TimeshiftRecord::create_record_stream_source,
            (&record, recorder_name, &config, start_pos),
            result,
        ),
        record.can_stream(config, start_pos),
    ensures
        ({
            let file_size = config.chunk_size * config.num_chunks;
            let size = bytes_between(record.start, record.end, file_size);
            let offset: int = match start_pos {
                Some(pos) => pos as int,
                None => 0,
            };
            &&& result is Ok <==> offset < size
            &&& result matches Err(error) ==> error is OutOfRange
            &&& result matches Ok(source) ==> {
                &&& source.start == match start_pos {
                    Some(pos) => (record.start.pos + pos) % file_size,
                    None => record.start.pos as int,
                }
                &&& source.range.first == offset
                &&& source.range.last == size - 1
                &&& source.range.size is Some <==> !record.recording
                &&& source.file == config.file && source.id == record.id
                &&& source.recorder_name == recorder_name
                &&& record.end.pos < file_size ==> (source.start + (source.range.last
                    - source.range.first + 1)) % file_size == record.end.pos
            }
        }),
{
    record_stream_carries_the_rest_of_the_record(record, recorder_name, config, start_pos);
}

/// A record that is updated ends at the point of the report, and is complete if the program ended.
pub proof fn updated_record_ends_at_the_point(
    record: &mut TimeshiftRecord,
    program: EpgProgram,
    point: TimeshiftPoint,
    end: bool,
    id: TimeshiftRecordId,
    fresh: TimeshiftRecord,
)
    requires
        call_ensures(TimeshiftRecord::update, (record, program, point, end), ()),
        call_ensures(TimeshiftRecord::new, (id, program, point), fresh),
    ensures
        final(record).id == old(record).id,
        final(record).program == program,
        final(record).start == old(record).start,
        final(record).end == point,
        final(record).recording == (old(record).recording && !end),
        fresh.id == id && fresh.program == program,
        fresh.start == point && fresh.end == point && fresh.recording,
{
}

} // verus!
