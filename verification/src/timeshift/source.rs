//! What a timeshift stream is read from.

use crate::models::TimeshiftRecordId;
use crate::mpeg_ts_stream::{MpegTsStream, MpegTsStreamRange};
use crate::text::{joined, signed_decimal, signed_decimal_text};
use crate::timeshift::record::TimeshiftPoint;
use vstd::prelude::*;

verus! {

/// The size of the buffer that a stream is read with: 32 KiB, large enough for 10 ms buffering.
pub const CHUNK_SIZE: usize = 32768;

/// The name of the timeshift user or stream of a recorder.
pub open spec fn recorder_stream_id(recorder_name: Seq<char>) -> Seq<char> {
    "timeshift("@ + recorder_name + ")"@
}

/// Gives the name of the timeshift user or stream of a recorder.
pub fn make_recorder_stream_id(recorder_name: &str) -> (id: String)
    ensures
        id@ == recorder_stream_id(recorder_name@),
{
    let mut id = joined("timeshift(", recorder_name);
    id.append(")");
    id
}

/// A live stream of a recorder, which starts at a point on its timeline.
#[derive(Debug)]
pub struct TimeshiftStreamSource {
    pub name: String,
    pub file: String,
    pub point: TimeshiftPoint,
}

impl TimeshiftStreamSource {
    /// The position in the ring at which the stream starts.
    pub fn position(&self) -> (pos: u64)
        ensures
            pos == self.point.pos,
    {
        self.point.pos
    }

    /// Names the stream that is read from the source. Records hold decoded packets only.
    pub fn into_stream<S>(self, stream: S) -> (ts: MpegTsStream<String, S>)
        ensures
            ts.id@ == recorder_stream_id(self.name@),
            ts.stream == stream,
            ts.range is None,
            ts.decoded,
    {
        let id = make_recorder_stream_id(self.name.as_str());
        MpegTsStream::new(id, stream).decoded()
    }
}

/// A stream of a record, which starts at a position in the ring and has a limited length.
#[derive(Debug)]
pub struct TimeshiftRecordStreamSource {
    pub recorder_name: String,
    pub file: String,
    pub id: TimeshiftRecordId,
    pub start: u64,
    pub range: MpegTsStreamRange,
}

impl TimeshiftRecordStreamSource {
    /// The position in the ring at which the stream starts.
    pub fn position(&self) -> (pos: u64)
        ensures
            pos == self.start,
    {
        self.start
    }

    /// The number of bytes after which the stream ends.
    pub fn limit(&self) -> (count: u64)
        requires
            self.range.valid(),
        ensures
            count == self.range.spec_bytes(),
    {
        self.range.bytes()
    }

    /// Names the stream that is read from the source. Records hold decoded packets only.
    pub fn into_stream<S>(self, stream: S) -> (ts: MpegTsStream<String, S>)
        ensures
            ts.id@ == recorder_stream_id(self.recorder_name@) + "/record#"@ + signed_decimal(
                self.id.value as int,
            ),
            ts.stream == stream,
            ts.range == Some(self.range),
            ts.decoded,
    {
        let mut id = make_recorder_stream_id(self.recorder_name.as_str());
        id.append("/record#");
        id.append(signed_decimal_text(self.id.value).as_str());
        MpegTsStream::with_range(id, stream, self.range).decoded()
    }
}

/// The stream of a recorder is named after it, so that no two recorders share a name of a stream.
pub proof fn recorder_streams_have_different_names(a: Seq<char>, b: Seq<char>)
    ensures
        recorder_stream_id(a).len() == a.len() + 11,
        recorder_stream_id(a).subrange(0, 10) == "timeshift("@,
        recorder_stream_id(a).subrange(10, 10int + a.len()) == a,
        recorder_stream_id(a).last() == ')',
        recorder_stream_id(a) == recorder_stream_id(b) ==> a == b,
{
    reveal_strlit("timeshift(");
    reveal_strlit(")");
    let x = recorder_stream_id(a);
    let y = recorder_stream_id(b);
    assert(x.subrange(0, 10) =~= "timeshift("@);
    assert(x.subrange(10, 10int + a.len()) =~= a);
    assert(y.subrange(10, 10int + b.len()) =~= b);
}

/// A stream is read from where its source starts, carries the packets that are read, and is decoded.
/// A live stream has no range, and a stream of a record has that of its source.
pub proof fn streams_are_those_of_their_sources<S>(
    live: TimeshiftStreamSource,
    recorded: TimeshiftRecordStreamSource,
    stream: S,
    live_pos: u64,
    recorded_pos: u64,
    limit: u64,
    live_stream: MpegTsStream<String, S>,
    recorded_stream: MpegTsStream<String, S>,
)
    requires
        call_ensures(TimeshiftStreamSource::position, (&live,), live_pos),
        call_ensures(TimeshiftRecordStreamSource::position, (&recorded,), recorded_pos),
        call_ensures(TimeshiftRecordStreamSource::limit, (&recorded,), limit),
        call_ensures(TimeshiftStreamSource::into_stream::<S>, (live, stream), live_stream),
        call_ensures(
            TimeshiftRecordStreamSource::into_stream::<S>,
            (recorded, stream),
            recorded_stream,
        ),
    ensures
        live_pos == live.point.pos,
        recorded_pos == recorded.start,
        recorded.range.first + limit == recorded.range.last + 1,
        live_stream.stream == stream && live_stream.decoded && live_stream.range is None,
        live_stream.id@ == "timeshift("@ + live.name@ + ")"@,
        recorded_stream.stream == stream && recorded_stream.decoded,
        recorded_stream.range == Some(recorded.range),
        recorded_stream.id@ == "timeshift("@ + recorded.recorder_name@ + ")"@ + "/record#"@
            + signed_decimal(recorded.id.value as int),
{
}

} // verus!
