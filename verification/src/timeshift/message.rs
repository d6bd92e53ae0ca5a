//! The messages that the timeshift manager handles.

use crate::epg::{EitEvent, EpgServices};
use crate::error::MirakcError;
use crate::models::{EventQuad, TimeshiftRecordId};
use crate::text::{decimal, decimal_text, joined, signed_decimal, signed_decimal_text};
use crate::timeshift::record::TimeshiftPoint;
use vstd::prelude::*;

verus! {

/// Asks for all of the recorders.
#[derive(Debug)]
pub struct QueryTimeshiftRecordersMessage;

impl QueryTimeshiftRecordersMessage {
    /// Describes the message.
    pub fn description(&self) -> (text: String)
        ensures
            text@ == "QueryTimeshiftRecorders"@,
    {
        "QueryTimeshiftRecorders".to_owned()
    }
}

/// Asks for a recorder.
#[derive(Debug)]
pub struct QueryTimeshiftRecorderMessage {
    pub name: String,
}

impl QueryTimeshiftRecorderMessage {
    /// Describes the message.
    pub fn description(&self) -> (text: String)
        ensures
            text@ == "QueryTimeshiftRecorder for "@ + self.name@,
    {
        joined("QueryTimeshiftRecorder for ", self.name.as_str())
    }
}

/// Asks for the records of a recorder.
#[derive(Debug)]
pub struct QueryTimeshiftRecordsMessage {
    pub recorder_name: String,
}

impl QueryTimeshiftRecordsMessage {
    /// Describes the message.
    pub fn description(&self) -> (text: String)
        ensures
            text@ == "QueryTimeshiftRecords in "@ + self.recorder_name@,
    {
        joined("QueryTimeshiftRecords in ", self.recorder_name.as_str())
    }
}

/// The part of a description which names a record of a recorder.
pub open spec fn record_in_recorder(id: TimeshiftRecordId, recorder_name: Seq<char>) -> Seq<char> {
    "Record#"@ + signed_decimal(id.value as int) + " in "@ + recorder_name
}

fn make_record_in_recorder(id: TimeshiftRecordId, recorder_name: &str) -> (text: String)
    ensures
        text@ == record_in_recorder(id, recorder_name@),
{
    let mut text = joined("Record#", signed_decimal_text(id.value).as_str());
    text.append(" in ");
    text.append(recorder_name);
    text
}

/// Asks for a record of a recorder.
#[derive(Debug)]
pub struct QueryTimeshiftRecordMessage {
    pub recorder_name: String,
    pub record_id: TimeshiftRecordId,
}

impl QueryTimeshiftRecordMessage {
    /// Describes the message.
    pub fn description(&self) -> (text: String)
        ensures
            text@ == "QueryTimeshiftRecord for "@ + record_in_recorder(
                self.record_id,
                self.recorder_name@,
            ),
    {
        joined(
            "QueryTimeshiftRecord for ",
            make_record_in_recorder(self.record_id, self.recorder_name.as_str()).as_str(),
        )
    }
}

/// Asks for a live stream of a recorder, from a record or from the oldest chunk on.
#[derive(Debug)]
pub struct StartTimeshiftStreamingMessage {
    pub recorder_name: String,
    pub record_id: Option<TimeshiftRecordId>,
}

impl StartTimeshiftStreamingMessage {
    /// Describes the message.
    pub fn description(&self) -> (text: String)
        ensures
            text@ == "StartTimeshiftStreaming for "@ + match self.record_id {
                Some(id) => record_in_recorder(id, self.recorder_name@),
                None => self.recorder_name@,
            },
    {
        match self.record_id {
            Some(id) => joined(
                "StartTimeshiftStreaming for ",
                make_record_in_recorder(id, self.recorder_name.as_str()).as_str(),
            ),
            None => joined("StartTimeshiftStreaming for ", self.recorder_name.as_str()),
        }
    }
}

/// Asks for a stream of a record, from its beginning or from a position in it.
#[derive(Debug)]
pub struct StartTimeshiftRecordStreamingMessage {
    pub recorder_name: String,
    pub record_id: TimeshiftRecordId,
    pub start_pos: Option<u64>,
}

impl StartTimeshiftRecordStreamingMessage {
    /// Describes the message.
    pub fn description(&self) -> (text: String)
        ensures
            text@ == "StartTimeshiftRecordStreaming from "@ + match self.start_pos {
                Some(pos) => decimal(pos as nat),
                None => "the beginning"@,
            } + " of "@ + record_in_recorder(self.record_id, self.recorder_name@),
    {
        let mut text = match self.start_pos {
            Some(pos) => joined(
                "StartTimeshiftRecordStreaming from ",
                decimal_text(pos).as_str(),
            ),
            None => joined("StartTimeshiftRecordStreaming from ", "the beginning"),
        };
        text.append(" of ");
        text.append(
            make_record_in_recorder(self.record_id, self.recorder_name.as_str()).as_str(),
        );
        text
    }
}

/// Tells which services are available now.
pub struct NotifyServicesUpdatedMessage {
    pub services: EpgServices,
}

impl NotifyServicesUpdatedMessage {
    /// Describes the message.
    pub fn description(&self) -> (text: String)
        ensures
            text@ == "NotifyServicesUpdated"@,
    {
        "NotifyServicesUpdated".to_owned()
    }
}

/// The recording command has started to record.
#[derive(Debug)]
pub struct TimeshiftStartMessage {
    pub id: String,
}

/// The recording command has stopped, and has cleared the ring if it is reset.
#[derive(Debug)]
pub struct TimeshiftStopMessage {
    pub id: String,
    pub reset: bool,
}

/// The recording command has started to write a chunk.
#[derive(Debug)]
pub struct TimeshiftChunkMessage {
    pub id: String,
    pub chunk: TimeshiftPoint,
}

/// A program has started, gone on or ended at a point.
#[derive(Debug)]
pub struct TimeshiftEventMessage {
    pub id: String,
    pub original_network_id: u16,
    pub transport_stream_id: u16,
    pub service_id: u16,
    pub event: EitEvent,
    pub record: TimeshiftPoint,
}

impl TimeshiftEventMessage {
    /// The event of the program.
    pub open spec fn spec_quad(self) -> EventQuad {
        EventQuad {
            nid: self.original_network_id,
            tsid: self.transport_stream_id,
            sid: self.service_id,
            eid: self.event.event_id,
        }
    }

    /// Gives the event of the program.
    pub fn quad(&self) -> (quad: EventQuad)
        ensures
            quad == self.spec_quad(),
    {
        EventQuad::new(
            self.original_network_id,
            self.transport_stream_id,
            self.service_id,
            self.event.event_id,
        )
    }
}

/// What a recording command reports. The `id` in it is the name of the recorder.
#[derive(Debug)]
pub enum TimeshiftMessage {
    Start(TimeshiftStartMessage),
    Stop(TimeshiftStopMessage),
    Chunk(TimeshiftChunkMessage),
    EventStart(TimeshiftEventMessage),
    EventUpdate(TimeshiftEventMessage),
    EventEnd(TimeshiftEventMessage),
}

impl TimeshiftMessage {
    /// The name of the recorder.
    pub open spec fn recorder_name(self) -> Seq<char> {
        match self {
            TimeshiftMessage::Start(message) => message.id@,
            TimeshiftMessage::Stop(message) => message.id@,
            TimeshiftMessage::Chunk(message) => message.id@,
            TimeshiftMessage::EventStart(message) => message.id@,
            TimeshiftMessage::EventUpdate(message) => message.id@,
            TimeshiftMessage::EventEnd(message) => message.id@,
        }
    }
}

/// What came from the output of a recording command.
#[derive(Debug)]
pub enum ReportEvent {
    /// A line, which is a message unless it cannot be parsed.
    Line(Option<TimeshiftMessage>),
    /// The end of the output.
    Eof,
    /// The output cannot be read.
    ReadFailed,
}

/// What to do with the output of a recording command.
#[derive(Debug)]
pub enum ReportAction {
    /// Hand a message to the manager, and read the next line.
    Forward(TimeshiftMessage),
    /// Read no further.
    Finish(Result<(), MirakcError>),
}

/// What to do after something came from the output.
pub open spec fn report_action(event: ReportEvent) -> ReportAction {
    match event {
        ReportEvent::Line(Some(message)) => ReportAction::Forward(message),
        ReportEvent::Line(None) => ReportAction::Finish(Err(MirakcError::InvalidReport)),
        ReportEvent::Eof => ReportAction::Finish(Ok(())),
        ReportEvent::ReadFailed => ReportAction::Finish(Err(MirakcError::UnreadableReport)),
    }
}

/// Decides what to do after something came from the output.
pub fn forward_message(event: ReportEvent) -> (action: ReportAction)
    ensures
        action == report_action(event),
{
    match event {
        ReportEvent::Line(Some(message)) => ReportAction::Forward(message),
        ReportEvent::Line(None) => ReportAction::Finish(Err(MirakcError::InvalidReport)),
        ReportEvent::Eof => ReportAction::Finish(Ok(())),
        ReportEvent::ReadFailed => ReportAction::Finish(Err(MirakcError::UnreadableReport)),
    }
}

/// The messages that the manager gets from an output, up to the point where it is read no further.
pub open spec fn forwarded(events: Seq<ReportEvent>) -> Seq<TimeshiftMessage>
    decreases events.len(),
{
    if events.len() == 0 {
        Seq::empty()
    } else {
        match report_action(events[0]) {
            ReportAction::Forward(message) => seq![message] + forwarded(events.drop_first()),
            ReportAction::Finish(_) => Seq::empty(),
        }
    }
}

/// The manager gets the messages of an output in their order, up to the first line that cannot be
/// parsed, and nothing that follows it.
pub proof fn messages_are_forwarded_until_one_fails(events: Seq<ReportEvent>, n: int)
    requires
        0 <= n <= events.len(),
        forall|i: int| 0 <= i < n ==> (#[trigger] events[i]) matches ReportEvent::Line(Some(_)),
        n < events.len() ==> !(events[n] matches ReportEvent::Line(Some(_))),
    ensures
        forwarded(events).len() == n,
        forall|i: int|
            0 <= i < n ==> events[i] == ReportEvent::Line(Some(#[trigger] forwarded(events)[i])),
    decreases n,
{
    if n > 0 {
        let rest = events.drop_first();
        assert forall|i: int| 0 <= i < n - 1 implies (#[trigger] rest[i]) matches ReportEvent::Line(
            Some(_),
        ) by {
            assert(rest[i] == events[i + 1]);
        }
        if n < events.len() {
            assert(rest[n - 1] == events[n]);
        }
        messages_are_forwarded_until_one_fails(rest, n - 1);
        assert(events[0] matches ReportEvent::Line(Some(_)));
        assert forall|i: int| 0 <= i < n implies events[i] == ReportEvent::Line(
            Some(#[trigger] forwarded(events)[i]),
        ) by {
            if i > 0 {
                assert(forwarded(events)[i] == forwarded(rest)[i - 1]);
                assert(rest[i - 1] == events[i]);
            }
        }
    }
}

/// A report names its recorder and its event by what is in it.
pub proof fn reports_name_their_recorder_and_event(message: TimeshiftEventMessage)
    ensures
        message.spec_quad().nid == message.original_network_id,
        message.spec_quad().tsid == message.transport_stream_id,
        message.spec_quad().sid == message.service_id,
        message.spec_quad().eid == message.event.event_id,
        TimeshiftMessage::EventStart(message).recorder_name() == message.id@,
        TimeshiftMessage::EventUpdate(message).recorder_name() == message.id@,
        TimeshiftMessage::EventEnd(message).recorder_name() == message.id@,
{
}

/// The name of the recorder is that in the report.
pub proof fn other_reports_name_their_recorder(
    start: TimeshiftStartMessage,
    stop: TimeshiftStopMessage,
    chunk: TimeshiftChunkMessage,
)
    ensures
        TimeshiftMessage::Start(start).recorder_name() == start.id@,
        TimeshiftMessage::Stop(stop).recorder_name() == stop.id@,
        TimeshiftMessage::Chunk(chunk).recorder_name() == chunk.id@,
{
}

/// An output is read to its end without an error, and is given up with one if a line is no message
/// or it cannot be read. Nothing but a message is forwarded, and it is forwarded as it is.
pub proof fn output_is_given_up_for_a_reason(event: ReportEvent)
    ensures
        report_action(event) == ReportAction::Finish(Ok(())) <==> event is Eof,
        report_action(event) == ReportAction::Finish(Err(MirakcError::InvalidReport)) <==> event
            == ReportEvent::Line(None),
        report_action(event) == ReportAction::Finish(Err(MirakcError::UnreadableReport)) <==> event
            is ReadFailed,
        report_action(event) matches ReportAction::Forward(message) ==> event == ReportEvent::Line(
            Some(message),
        ),
        event matches ReportEvent::Line(Some(message)) ==> report_action(event)
            == ReportAction::Forward(message),
{
}

/// Records are described by their identifiers and recorders, so that no two identifiers of a
/// recorder are described alike.
pub proof fn records_are_described_by_their_identifiers(
    a: TimeshiftRecordId,
    b: TimeshiftRecordId,
    recorder_name: Seq<char>,
)
    ensures
        record_in_recorder(a, recorder_name) == "Record#"@ + signed_decimal(a.value as int)
            + " in "@ + recorder_name,
        record_in_recorder(a, recorder_name) == record_in_recorder(b, recorder_name) ==> a == b,
{
    let x = record_in_recorder(a, recorder_name);
    let y = record_in_recorder(b, recorder_name);
    let m = signed_decimal(a.value as int);
    let n = signed_decimal(b.value as int);
    if x == y {
        reveal_strlit("Record#");
        reveal_strlit(" in ");
        assert(x.len() == 7 + m.len() + 4 + recorder_name.len());
        assert(y.len() == 7 + n.len() + 4 + recorder_name.len());
        assert(m =~= x.subrange(7, 7 + m.len() as int));
        assert(n =~= y.subrange(7, 7 + n.len() as int));
        crate::text::signed_decimals_differ(a.value as int, b.value as int);
    }
}

/// Messages are described by what they ask for and of whom.
pub proof fn descriptions_tell_what_is_asked_for(
    recorder: QueryTimeshiftRecorderMessage,
    records: QueryTimeshiftRecordsMessage,
    record: QueryTimeshiftRecordMessage,
    live: StartTimeshiftStreamingMessage,
    recorded: StartTimeshiftRecordStreamingMessage,
    texts: (String, String, String, String, String),
)
    requires
        call_ensures(QueryTimeshiftRecorderMessage::description, (&recorder,), texts.0),
        call_ensures(QueryTimeshiftRecordsMessage::description, (&records,), texts.1),
        call_ensures(QueryTimeshiftRecordMessage::description, (&record,), texts.2),
        call_ensures(StartTimeshiftStreamingMessage::description, (&live,), texts.3),
        call_ensures(StartTimeshiftRecordStreamingMessage::description, (&recorded,), texts.4),
    ensures
        texts.0@ == "QueryTimeshiftRecorder for "@ + recorder.name@,
        texts.1@ == "QueryTimeshiftRecords in "@ + records.recorder_name@,
        texts.2@ == "QueryTimeshiftRecord for "@ + ("Record#"@ + signed_decimal(
            record.record_id.value as int,
        ) + " in "@ + record.recorder_name@),
        texts.3@ == "StartTimeshiftStreaming for "@ + match live.record_id {
            Some(id) => "Record#"@ + signed_decimal(id.value as int) + " in "@
                + live.recorder_name@,
            None => live.recorder_name@,
        },
        texts.4@ == "StartTimeshiftRecordStreaming from "@ + match recorded.start_pos {
            Some(pos) => decimal(pos as nat),
            None => "the beginning"@,
        } + " of "@ + ("Record#"@ + signed_decimal(recorded.record_id.value as int) + " in "@
            + recorded.recorder_name@),
{
}

/// The output of a recording command is forwarded message by message, and given up with an error at
/// the first line that is none.
pub proof fn output_is_forwarded_as_it_is(event: ReportEvent, action: ReportAction)
    requires
        call_ensures(forward_message, (event,), action),
    ensures
        event matches ReportEvent::Line(Some(message)) ==> action == ReportAction::Forward(message),
        event == ReportEvent::Line(None) ==> action == ReportAction::Finish(
            Err(MirakcError::InvalidReport),
        ),
        event is Eof ==> action == ReportAction::Finish(Ok(())),
        event is ReadFailed ==> action == ReportAction::Finish(Err(MirakcError::UnreadableReport)),
{
}

} // verus!
