//! MPEG-TS streams, the ranges of records they carry, and how they are piped to a writer.

use crate::error::MirakcError;
use vstd::prelude::*;

verus! {

/// The part of a record that a stream carries: the bytes from `first` to `last`, both included,
/// and the size of the record where it is final.
#[derive(Clone, Copy, Debug, PartialEq, Eq, Structural)]
pub struct MpegTsStreamRange {
    pub first: u64,
    pub last: u64,
    pub size: Option<u64>,
}

impl MpegTsStreamRange {
    /// The range is not empty and its length fits in 64 bits.
    pub open spec fn valid(self) -> bool {
        self.first <= self.last < u64::MAX
    }

    /// The number of bytes in the range.
    pub open spec fn spec_bytes(self) -> int {
        self.last - self.first + 1
    }

    /// The bytes from `first` to the end of a record that is complete.
    pub fn bound(first: u64, size: u64) -> (range: Result<MpegTsStreamRange, MirakcError>)
        ensures
            first < size ==> range == Ok::<MpegTsStreamRange, MirakcError>(
                MpegTsStreamRange { first, last: (size - 1) as u64, size: Some(size) },
            ),
            first >= size ==> range == Err::<MpegTsStreamRange, MirakcError>(
                MirakcError::OutOfRange,
            ),
    {
        if first >= size {
            return Err(MirakcError::OutOfRange);
        }
        Ok(MpegTsStreamRange { first, last: size - 1, size: Some(size) })
    }

    /// The bytes from `first` to the current end of a record that is still growing.
    pub fn unbound(first: u64, size: u64) -> (range: Result<MpegTsStreamRange, MirakcError>)
        ensures
            first < size ==> range == Ok::<MpegTsStreamRange, MirakcError>(
                MpegTsStreamRange { first, last: (size - 1) as u64, size: None },
            ),
            first >= size ==> range == Err::<MpegTsStreamRange, MirakcError>(
                MirakcError::OutOfRange,
            ),
    {
        if first >= size {
            return Err(MirakcError::OutOfRange);
        }
        Ok(MpegTsStreamRange { first, last: size - 1, size: None })
    }

    /// Gives the number of bytes in the range.
    pub fn bytes(&self) -> (count: u64)
        requires
            self.valid(),
        ensures
            count == self.spec_bytes(),
    {
        self.last - self.first + 1
    }
}

/// A stream of MPEG-TS packets.
pub struct MpegTsStream<T, S> {
    pub id: T,
    pub stream: S,
    /// The part of a record that is streamed, unless the stream is live.
    pub range: Option<MpegTsStreamRange>,
    /// The packets are not scrambled.
    pub decoded: bool,
}

impl<T, S> MpegTsStream<T, S> {
    /// A live stream that may be scrambled.
    pub fn new(id: T, stream: S) -> (ts: MpegTsStream<T, S>)
        ensures
            ts == (MpegTsStream { id, stream, range: None, decoded: false }),
    {
        MpegTsStream { id, stream, range: None, decoded: false }
    }

    /// A stream of a part of a record that may be scrambled.
    pub fn with_range(id: T, stream: S, range: MpegTsStreamRange) -> (ts: MpegTsStream<T, S>)
        ensures
            ts == (MpegTsStream { id, stream, range: Some(range), decoded: false }),
    {
        MpegTsStream { id, stream, range: Some(range), decoded: false }
    }

    /// The same stream, known not to be scrambled.
    pub fn decoded(self) -> (ts: MpegTsStream<T, S>)
        ensures
            ts == (MpegTsStream {
                id: self.id,
                stream: self.stream,
                range: self.range,
                decoded: true,
            }),
    {
        MpegTsStream { id: self.id, stream: self.stream, range: self.range, decoded: true }
    }

    /// Tells whether the stream is known not to be scrambled.
    pub fn is_decoded(&self) -> (decoded: bool)
        ensures
            decoded == self.decoded,
    {
        self.decoded
    }
}

impl<T: Copy, S> MpegTsStream<T, S> {
    /// The identifier of the stream.
    pub fn id(&self) -> (id: T)
        ensures
            id == self.id,
    {
        self.id
    }
}

/// A terminator on the output-side endpoint of a filtering pipeline.
///
/// It owns a trigger which shuts the streaming down when it is dropped, so that the tuner is
/// released as soon as the transaction which reads the stream ends.
pub struct MpegTsStreamTerminator<S, T> {
    pub inner: S,
    pub stop_trigger: T,
}

impl<S, T> MpegTsStreamTerminator<S, T> {
    /// Attaches a stop trigger to a stream.
    pub fn new(inner: S, stop_trigger: T) -> (terminator: MpegTsStreamTerminator<S, T>)
        ensures
            terminator == (MpegTsStreamTerminator { inner, stop_trigger }),
    {
        MpegTsStreamTerminator { inner, stop_trigger }
    }
}

/// Why a pipe ends.
#[derive(Clone, Copy, Debug, PartialEq, Eq, Structural)]
pub enum PipeEnd {
    /// The stream has no more chunks.
    EofReached,
    /// The side that feeds the stream has closed it.
    UpstreamClosed,
    /// The stream cannot be read.
    UpstreamFailed,
    /// The side that reads from the writer has closed it.
    DownstreamClosed,
    /// The writer cannot be written to.
    DownstreamFailed,
}

/// What a pipe is waiting for.
#[derive(Clone, Copy, Debug, PartialEq, Eq, Structural)]
pub enum PipeState {
    Reading,
    Writing,
    ShuttingDown,
    Finished,
}

/// What happened to the stream or to the writer.
pub enum PipeEvent<C> {
    /// A chunk came from the stream.
    Chunk(C),
    /// The stream ended.
    Eof,
    /// The stream failed, because the other side closed it or for another reason.
    ReadFailed { broken_pipe: bool },
    /// The whole chunk has been written.
    Written,
    /// The chunk could not be written, because the other side closed or for another reason.
    WriteFailed { broken_pipe: bool },
    /// The writer has been shut down, or failed to.
    ShutDown,
}

/// What to do next with the stream or the writer.
pub enum PipeAction<C> {
    /// Wait for the next chunk of the stream.
    Read,
    /// Write a whole chunk.
    Write(C),
    /// Shut the writer down.
    ShutDown(PipeEnd),
    /// Nothing is left to do.
    Finish,
}

impl PipeState {
    /// An event that can happen in this state.
    pub open spec fn expects<C>(self, event: PipeEvent<C>) -> bool {
        match self {
            PipeState::Reading => event is Chunk || event is Eof || event is ReadFailed,
            PipeState::Writing => event is Written || event is WriteFailed,
            PipeState::ShuttingDown => event is ShutDown,
            PipeState::Finished => false,
        }
    }

    /// The state that follows an event.
    pub open spec fn after<C>(self, event: PipeEvent<C>) -> PipeState {
        match event {
            PipeEvent::Chunk(_) => PipeState::Writing,
            PipeEvent::Written => PipeState::Reading,
            PipeEvent::Eof => PipeState::ShuttingDown,
            PipeEvent::ReadFailed { .. } => PipeState::ShuttingDown,
            PipeEvent::WriteFailed { .. } => PipeState::ShuttingDown,
            PipeEvent::ShutDown => PipeState::Finished,
        }
    }

    /// Takes an event in: moves to the state that follows it and tells what to do next.
    pub fn handle<C>(&mut self, event: PipeEvent<C>) -> (action: PipeAction<C>)
        requires
            old(self).expects(event),
        ensures
            *final(self) == old(self).after(event),
            action == action_of(event),
    {
        match event {
            PipeEvent::Chunk(chunk) => {
                *self = PipeState::Writing;
                PipeAction::Write(chunk)
            },
            PipeEvent::Written => {
                *self = PipeState::Reading;
                PipeAction::Read
            },
            PipeEvent::Eof => {
                *self = PipeState::ShuttingDown;
                PipeAction::ShutDown(PipeEnd::EofReached)
            },
            PipeEvent::ReadFailed { broken_pipe } => {
                *self = PipeState::ShuttingDown;
                if broken_pipe {
                    PipeAction::ShutDown(PipeEnd::UpstreamClosed)
                } else {
                    PipeAction::ShutDown(PipeEnd::UpstreamFailed)
                }
            },
            PipeEvent::WriteFailed { broken_pipe } => {
                *self = PipeState::ShuttingDown;
                if broken_pipe {
                    PipeAction::ShutDown(PipeEnd::DownstreamClosed)
                } else {
                    PipeAction::ShutDown(PipeEnd::DownstreamFailed)
                }
            },
            PipeEvent::ShutDown => {
                *self = PipeState::Finished;
                PipeAction::Finish
            },
        }
    }
}

/// What to do after an event.
pub open spec fn action_of<C>(event: PipeEvent<C>) -> PipeAction<C> {
    match event {
        PipeEvent::Chunk(chunk) => PipeAction::Write(chunk),
        PipeEvent::Written => PipeAction::Read,
        PipeEvent::Eof => PipeAction::ShutDown(PipeEnd::EofReached),
        PipeEvent::ReadFailed { broken_pipe } => PipeAction::ShutDown(
            if broken_pipe {
                PipeEnd::UpstreamClosed
            } else {
                PipeEnd::UpstreamFailed
            },
        ),
        PipeEvent::WriteFailed { broken_pipe } => PipeAction::ShutDown(
            if broken_pipe {
                PipeEnd::DownstreamClosed
            } else {
                PipeEnd::DownstreamFailed
            },
        ),
        PipeEvent::ShutDown => PipeAction::Finish,
    }
}

/// The events can happen one after another, starting in `state`.
pub open spec fn possible_run<C>(state: PipeState, events: Seq<PipeEvent<C>>) -> bool
    decreases events.len(),
{
    events.len() > 0 ==> {
        &&& state.expects(events[0])
        &&& possible_run(state.after(events[0]), events.drop_first())
    }
}

/// The state after all the events.
pub open spec fn state_after<C>(state: PipeState, events: Seq<PipeEvent<C>>) -> PipeState
    decreases events.len(),
{
    if events.len() == 0 {
        state
    } else {
        state_after(state.after(events[0]), events.drop_first())
    }
}

/// The chunks that came from the stream, in order.
pub open spec fn received<C>(events: Seq<PipeEvent<C>>) -> Seq<C>
    decreases events.len(),
{
    if events.len() == 0 {
        Seq::empty()
    } else {
        match events[0] {
            PipeEvent::Chunk(chunk) => seq![chunk] + received(events.drop_first()),
            _ => received(events.drop_first()),
        }
    }
}

/// The chunks that are handed to the writer, in order.
pub open spec fn written<C>(actions: Seq<PipeAction<C>>) -> Seq<C>
    decreases actions.len(),
{
    if actions.len() == 0 {
        Seq::empty()
    } else {
        match actions[0] {
            PipeAction::Write(chunk) => seq![chunk] + written(actions.drop_first()),
            _ => written(actions.drop_first()),
        }
    }
}

/// How many times the writer is told to shut down.
pub open spec fn shutdowns<C>(actions: Seq<PipeAction<C>>) -> nat
    decreases actions.len(),
{
    if actions.len() == 0 {
        0
    } else {
        shutdowns(actions.drop_first()) + if actions[0] is ShutDown {
            1nat
        } else {
            0nat
        }
    }
}

/// The actions that the events lead to.
pub open spec fn actions_of<C>(events: Seq<PipeEvent<C>>) -> Seq<PipeAction<C>> {
    events.map_values(|event: PipeEvent<C>| action_of(event))
}

/// A pipe hands every chunk of the stream to the writer, once and in order.
pub proof fn pipe_writes_what_it_reads<C>(state: PipeState, events: Seq<PipeEvent<C>>)
    requires
        possible_run(state, events),
    ensures
        written(actions_of(events)) == received(events),
    decreases events.len(),
{
    if events.len() > 0 {
        assert(actions_of(events).drop_first() =~= actions_of(events.drop_first()));
        pipe_writes_what_it_reads(state.after(events[0]), events.drop_first());
    }
}

/// A pipe shuts its writer down exactly once, however it ends, and not before it ends.
pub proof fn pipe_shuts_down_once<C>(events: Seq<PipeEvent<C>>)
    requires
        possible_run(PipeState::Reading, events),
    ensures
        ({
            let state = state_after(PipeState::Reading, events);
            shutdowns(actions_of(events)) == if state is ShuttingDown || state is Finished {
                1nat
            } else {
                0nat
            }
        }),
{
    lemma_shutdowns(PipeState::Reading, events);
}

proof fn lemma_shutdowns<C>(state: PipeState, events: Seq<PipeEvent<C>>)
    requires
        possible_run(state, events),
    ensures
        ({
            let ends = |s: PipeState| s is ShuttingDown || s is Finished;
            let last = state_after(state, events);
            &&& ends(state) ==> ends(last)
            &&& shutdowns(actions_of(events)) == if ends(last) && !ends(state) {
                1nat
            } else {
                0nat
            }
        }),
    decreases events.len(),
{
    if events.len() > 0 {
        assert(actions_of(events).drop_first() =~= actions_of(events.drop_first()));
        lemma_shutdowns(state.after(events[0]), events.drop_first());
    }
}

/// A chunk is read only after the chunk before it has been written: between two chunks of a run
/// there is always a completed write.
pub proof fn pipe_writes_before_it_reads_on<C>(
    state: PipeState,
    events: Seq<PipeEvent<C>>,
    i: int,
)
    requires
        possible_run(state, events),
        0 <= i < events.len() - 1,
        events[i] is Chunk,
    ensures
        events[i + 1] is Written || events[i + 1] is WriteFailed,
    decreases events.len(),
{
    if i > 0 {
        pipe_writes_before_it_reads_on(state.after(events[0]), events.drop_first(), i - 1);
        assert(events.drop_first()[i - 1] == events[i]);
        assert(events.drop_first()[i] == events[i + 1]);
    } else {
        let rest = events.drop_first();
        assert(rest[0] == events[1]);
        assert(possible_run(state.after(events[0]), rest));
    }
}

/// A range holds the bytes from its first to its last, both of them counted.
pub proof fn range_holds_its_bytes(range: MpegTsStreamRange)
    ensures
        range.first + range.spec_bytes() == range.last + 1,
        range.valid() <==> range.first <= range.last && range.last < u64::MAX,
{
}

/// A pipe writes a chunk right after it has come, reads on right after it has been written, and
/// shuts down after anything else, for the reason that the event tells. It is finished once it has
/// been shut down.
pub proof fn pipe_acts_on_what_happens<C>(state: PipeState, event: PipeEvent<C>)
    ensures
        match event {
            PipeEvent::Chunk(chunk) => action_of(event) == PipeAction::Write(chunk) && state.after(
                event,
            ) is Writing,
            PipeEvent::Written => action_of(event) is Read && state.after(event) is Reading,
            PipeEvent::ShutDown => action_of(event) is Finish && state.after(event) is Finished,
            _ => action_of(event) is ShutDown && state.after(event) is ShuttingDown,
        },
        event is Eof <==> action_of(event) == PipeAction::<C>::ShutDown(PipeEnd::EofReached),
        event == (PipeEvent::<C>::ReadFailed { broken_pipe: true }) <==> action_of(event)
            == PipeAction::<C>::ShutDown(PipeEnd::UpstreamClosed),
        event == (PipeEvent::<C>::ReadFailed { broken_pipe: false }) <==> action_of(event)
            == PipeAction::<C>::ShutDown(PipeEnd::UpstreamFailed),
        event == (PipeEvent::<C>::WriteFailed { broken_pipe: true }) <==> action_of(event)
            == PipeAction::<C>::ShutDown(PipeEnd::DownstreamClosed),
        event == (PipeEvent::<C>::WriteFailed { broken_pipe: false }) <==> action_of(event)
            == PipeAction::<C>::ShutDown(PipeEnd::DownstreamFailed),
{
}

/// A pipe that is not finished is ready for whatever its last action can come to.
pub proof fn pipe_expects_what_its_action_leads_to<C>(
    state: PipeState,
    event: PipeEvent<C>,
    next: PipeEvent<C>,
)
    requires
        state.expects(event),
    ensures
        state.after(event).expects(next) <==> match action_of(event) {
            PipeAction::Read => next is Chunk || next is Eof || next is ReadFailed,
            PipeAction::Write(_) => next is Written || next is WriteFailed,
            PipeAction::ShutDown(_) => next is ShutDown,
            PipeAction::Finish => false,
        },
{
}

/// The range of a record from a byte on ends with the last byte of the record. It exists exactly if
/// it starts before the end of the record, and tells the size of a complete record alone.
pub proof fn ranges_end_with_the_record(
    first: u64,
    size: u64,
    bound: Result<MpegTsStreamRange, MirakcError>,
    unbound: Result<MpegTsStreamRange, MirakcError>,
)
    requires
        call_ensures(MpegTsStreamRange::bound, (first, size), bound),
        call_ensures(MpegTsStreamRange::unbound, (first, size), unbound),
    ensures
        bound is Ok <==> first < size,
        unbound is Ok <==> first < size,
        bound matches Ok(range) ==> range.first == first && range.last + 1 == size && range.size
            == Some(size),
        unbound matches Ok(range) ==> range.first == first && range.last + 1 == size && range.size
            is None,
        bound matches Err(error) ==> error is OutOfRange,
        unbound matches Err(error) ==> error is OutOfRange,
{
}

/// A stream keeps what it is made of. Only a stream that is marked as decoded is decoded, and only
/// one of a record has a range.
pub proof fn streams_keep_what_they_are_made_of<T: Copy, S>(
    id: T,
    stream: S,
    range: MpegTsStreamRange,
    live: MpegTsStream<T, S>,
    recorded: MpegTsStream<T, S>,
    decoded: MpegTsStream<T, S>,
    told_id: T,
    told_decoded: bool,
)
    requires
        call_ensures(MpegTsStream::<T, S>::new, (id, stream), live),
        call_ensures(MpegTsStream::<T, S>::with_range, (id, stream, range), recorded),
        call_ensures(MpegTsStream::<T, S>::decoded, (recorded,), decoded),
        call_ensures(MpegTsStream::<T, S>::id, (&decoded,), told_id),
        call_ensures(MpegTsStream::<T, S>::is_decoded, (&decoded,), told_decoded),
    ensures
        live.id == id && live.stream == stream && live.range is None && !live.decoded,
        recorded.id == id && recorded.stream == stream && recorded.range == Some(range)
            && !recorded.decoded,
        decoded.id == id && decoded.stream == stream && decoded.range == Some(range)
            && decoded.decoded,
        told_id == id,
        told_decoded,
{
}

/// A pipe that takes an event in does what the event calls for: it hands a chunk to the writer as it
/// came, reads on after a chunk was written, shuts down after anything that ends it, and is then
/// finished.
pub proof fn pipe_does_what_events_call_for<C>(
    state: &mut PipeState,
    event: PipeEvent<C>,
    action: PipeAction<C>,
)
    requires
        call_ensures(PipeState::handle::<C>, (state, event), action),
    ensures
        event matches PipeEvent::Chunk(chunk) ==> action == PipeAction::Write(chunk)
            && *final(state) is Writing,
        event is Written ==> action is Read && *final(state) is Reading,
        event is Eof ==> action == PipeAction::<C>::ShutDown(PipeEnd::EofReached),
        event matches PipeEvent::ReadFailed { broken_pipe } ==> action == PipeAction::<C>::ShutDown(
            if broken_pipe {
                PipeEnd::UpstreamClosed
            } else {
                PipeEnd::UpstreamFailed
            },
        ),
        event matches PipeEvent::WriteFailed { broken_pipe } ==> action == PipeAction::<
            C,
        >::ShutDown(
            if broken_pipe {
                PipeEnd::DownstreamClosed
            } else {
                PipeEnd::DownstreamFailed
            },
        ),
        action is ShutDown ==> *final(state) is ShuttingDown,
        event is ShutDown ==> action is Finish && *final(state) is Finished,
{
}

} // verus!
