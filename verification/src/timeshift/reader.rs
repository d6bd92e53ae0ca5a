//! How the ring file is read: from a position on, and again from its beginning whenever its end
//! is reached, until reading is stopped.

use vstd::prelude::*;

verus! {

/// What the reader does with the file.
#[derive(Clone, Copy, Debug, PartialEq, Eq, Structural)]
pub enum TimeshiftFileReaderState {
    /// It reads.
    Read,
    /// It starts to seek the beginning.
    Seek,
    /// It waits for the seek to complete.
    Wait,
}

/// The reader of a ring file.
pub struct TimeshiftFileReader<F, R> {
    pub state: TimeshiftFileReaderState,
    pub path: String,
    pub file: F,
    pub stop_signal: R,
}

/// What an operation on the file came to: it is not ready yet, or it has completed or failed.
pub enum PollOutcome<V, E> {
    Pending,
    Ready(V),
    Failed(E),
}

/// What to do next.
#[derive(Clone, Copy, Debug, PartialEq, Eq, Structural)]
pub enum ReaderOperation {
    /// Read from the file.
    Read,
    /// Start to seek the beginning of the file.
    StartSeek,
    /// Complete the seek.
    CompleteSeek,
    /// Tell the caller that the stream has ended.
    Finish,
}

/// Whether to go on with the next operation, or what to tell the caller.
pub enum ReaderStep<E> {
    Continue,
    Return(PollOutcome<usize, E>),
}

/// The operation of a state. A stop signal comes first.
pub open spec fn operation_of(state: TimeshiftFileReaderState, stopped: bool) -> ReaderOperation {
    if stopped {
        ReaderOperation::Finish
    } else {
        match state {
            TimeshiftFileReaderState::Read => ReaderOperation::Read,
            TimeshiftFileReaderState::Seek => ReaderOperation::StartSeek,
            TimeshiftFileReaderState::Wait => ReaderOperation::CompleteSeek,
        }
    }
}

/// The state after reading, and whether to go on. The end of the file leads to its beginning;
/// anything else is handed to the caller.
pub open spec fn after_read<E>(outcome: PollOutcome<usize, E>) -> (
    TimeshiftFileReaderState,
    ReaderStep<E>,
) {
    match outcome {
        PollOutcome::Ready(count) => if count == 0 {
            (TimeshiftFileReaderState::Seek, ReaderStep::Continue)
        } else {
            (TimeshiftFileReaderState::Read, ReaderStep::Return(outcome))
        },
        _ => (TimeshiftFileReaderState::Read, ReaderStep::Return(outcome)),
    }
}

/// The state after an operation of a seek, and whether to go on.
pub open spec fn after_seek<V, E>(
    state: TimeshiftFileReaderState,
    next: TimeshiftFileReaderState,
    outcome: PollOutcome<V, E>,
) -> (TimeshiftFileReaderState, ReaderStep<E>) {
    match outcome {
        PollOutcome::Ready(_) => (next, ReaderStep::Continue),
        PollOutcome::Failed(error) => (state, ReaderStep::Return(PollOutcome::Failed(error))),
        PollOutcome::Pending => (state, ReaderStep::Return(PollOutcome::Pending)),
    }
}

/// What happens in one round of a call of the reader: the stop signal is there, or an operation
/// on the file comes to something.
pub enum ReaderRound<E> {
    Stopped,
    Read(PollOutcome<usize, E>),
    StartSeek(PollOutcome<(), E>),
    CompleteSeek(PollOutcome<u64, E>),
}

/// A round is possible in a state: it is the operation of the state, or the stop signal.
pub open spec fn round_fits<E>(state: TimeshiftFileReaderState, round: ReaderRound<E>) -> bool {
    match round {
        ReaderRound::Stopped => true,
        ReaderRound::Read(_) => operation_of(state, false) is Read,
        ReaderRound::StartSeek(_) => operation_of(state, false) is StartSeek,
        ReaderRound::CompleteSeek(outcome) => operation_of(state, false) is CompleteSeek && (
        outcome matches PollOutcome::Ready(pos) ==> pos == 0),
    }
}

/// The state after a round, and whether to go on. A stop signal leaves the state as it is.
pub open spec fn after_round<E>(state: TimeshiftFileReaderState, round: ReaderRound<E>) -> (
    TimeshiftFileReaderState,
    ReaderStep<E>,
) {
    match round {
        ReaderRound::Stopped => (state, ReaderStep::Return(PollOutcome::Ready(0))),
        ReaderRound::Read(outcome) => after_read(outcome),
        ReaderRound::StartSeek(outcome) => after_seek(
            state,
            TimeshiftFileReaderState::Wait,
            outcome,
        ),
        ReaderRound::CompleteSeek(outcome) => after_seek(
            state,
            TimeshiftFileReaderState::Read,
            outcome,
        ),
    }
}

impl TimeshiftFileReaderState {
    /// Tells what to do next.
    pub fn operation(&self, stopped: bool) -> (operation: ReaderOperation)
        ensures
            operation == operation_of(*self, stopped),
    {
        if stopped {
            return ReaderOperation::Finish;
        }
        match self {
            TimeshiftFileReaderState::Read => ReaderOperation::Read,
            TimeshiftFileReaderState::Seek => ReaderOperation::StartSeek,
            TimeshiftFileReaderState::Wait => ReaderOperation::CompleteSeek,
        }
    }

    /// Takes in what happened in a round, and tells whether to go on.
    pub fn handle<E>(&mut self, round: ReaderRound<E>) -> (step: ReaderStep<E>)
        requires
            round_fits(*old(self), round),
        ensures
            (*final(self), step) == after_round(*old(self), round),
    {
        match round {
            ReaderRound::Stopped => ReaderStep::Return(PollOutcome::Ready(0)),
            ReaderRound::Read(outcome) => match outcome {
                PollOutcome::Ready(0) => {
                    *self = TimeshiftFileReaderState::Seek;
                    ReaderStep::Continue
                },
                outcome => ReaderStep::Return(outcome),
            },
            ReaderRound::StartSeek(outcome) => match outcome {
                PollOutcome::Ready(_) => {
                    *self = TimeshiftFileReaderState::Wait;
                    ReaderStep::Continue
                },
                PollOutcome::Failed(error) => ReaderStep::Return(PollOutcome::Failed(error)),
                PollOutcome::Pending => ReaderStep::Return(PollOutcome::Pending),
            },
            ReaderRound::CompleteSeek(outcome) => match outcome {
                PollOutcome::Ready(_) => {
                    *self = TimeshiftFileReaderState::Read;
                    ReaderStep::Continue
                },
                PollOutcome::Failed(error) => ReaderStep::Return(PollOutcome::Failed(error)),
                PollOutcome::Pending => ReaderStep::Return(PollOutcome::Pending),
            },
        }
    }
}

impl<F, R> TimeshiftFileReader<F, R> {
    /// A reader that reads a file until the signal stops it.
    pub fn new(path: String, file: F, stop_signal: R) -> (reader: TimeshiftFileReader<F, R>)
        ensures
            reader == (TimeshiftFileReader {
                state: TimeshiftFileReaderState::Read,
                path,
                file,
                stop_signal,
            }),
    {
        TimeshiftFileReader { state: TimeshiftFileReaderState::Read, path, file, stop_signal }
    }
}

/// The reader has no end: only a stop signal makes it report that the stream has ended.
pub proof fn only_stopping_ends_the_stream<E>(
    state: TimeshiftFileReaderState,
    round: ReaderRound<E>,
)
    requires
        round_fits(state, round),
    ensures
        after_round(state, round).1 == ReaderStep::<E>::Return(PollOutcome::Ready(0)) <==> round
            is Stopped,
{
}

/// A stopped reader reports the end of the stream whatever it was doing.
pub proof fn stopping_takes_effect_at_once<E>(state: TimeshiftFileReaderState)
    ensures
        operation_of(state, true) is Finish,
        after_round(state, ReaderRound::<E>::Stopped) == (
            state,
            ReaderStep::<E>::Return(PollOutcome::Ready(0)),
        ),
{
}

/// The position in the file at which the next byte is read, after a round. Data comes from a
/// position on, and a completed seek leads to the beginning.
pub open spec fn position_after<E>(pos: int, round: ReaderRound<E>) -> int {
    match round {
        ReaderRound::Read(PollOutcome::Ready(count)) => pos + count,
        ReaderRound::CompleteSeek(PollOutcome::Ready(_)) => 0,
        _ => pos,
    }
}

/// Rounds are possible one after another in a file of a size, from a position on: no more is read
/// than the file holds, and nothing only at its end.
pub open spec fn rounds_fit<E>(
    state: TimeshiftFileReaderState,
    pos: int,
    rounds: Seq<ReaderRound<E>>,
    file_size: int,
) -> bool
    decreases rounds.len(),
{
    rounds.len() > 0 ==> {
        &&& round_fits(state, rounds[0])
        &&& rounds[0] matches ReaderRound::Read(PollOutcome::Ready(count)) ==> pos + count
            <= file_size && (count == 0 ==> pos == file_size)
        &&& rounds_fit(
            after_round(state, rounds[0]).0,
            position_after(pos, rounds[0]),
            rounds.drop_first(),
            file_size,
        )
    }
}

/// The number of bytes that are read in rounds.
pub open spec fn bytes_read<E>(rounds: Seq<ReaderRound<E>>) -> int
    decreases rounds.len(),
{
    if rounds.len() == 0 {
        0
    } else {
        bytes_read(rounds.drop_first()) + match rounds[0] {
            ReaderRound::Read(PollOutcome::Ready(count)) => count as int,
            _ => 0,
        }
    }
}

/// The position at which the next byte is read, after rounds.
pub open spec fn final_position<E>(pos: int, rounds: Seq<ReaderRound<E>>) -> int
    decreases rounds.len(),
{
    if rounds.len() == 0 {
        pos
    } else {
        final_position(position_after(pos, rounds[0]), rounds.drop_first())
    }
}

/// The file is read as a ring: after any rounds, the next byte is the one that lies as many bytes
/// after the first as have been read, around the end of the file.
pub proof fn file_is_read_as_a_ring<E>(
    pos: int,
    rounds: Seq<ReaderRound<E>>,
    file_size: int,
)
    requires
        0 <= pos <= file_size,
        file_size > 0,
        rounds_fit(TimeshiftFileReaderState::Read, pos, rounds, file_size),
    ensures
        0 <= final_position(pos, rounds) <= file_size,
        final_position(pos, rounds) % file_size == (pos + bytes_read(rounds)) % file_size,
{
    lemma_ring(TimeshiftFileReaderState::Read, pos, rounds, file_size);
}

proof fn lemma_ring<E>(
    state: TimeshiftFileReaderState,
    pos: int,
    rounds: Seq<ReaderRound<E>>,
    file_size: int,
)
    requires
        0 <= pos <= file_size,
        file_size > 0,
        !(state is Read) ==> pos == file_size,
        rounds_fit(state, pos, rounds, file_size),
    ensures
        0 <= final_position(pos, rounds) <= file_size,
        final_position(pos, rounds) % file_size == (pos + bytes_read(rounds)) % file_size,
    decreases rounds.len(),
{
    if rounds.len() > 0 {
        let next = position_after(pos, rounds[0]);
        let rest = rounds.drop_first();
        lemma_ring(after_round(state, rounds[0]).0, next, rest, file_size);
        match rounds[0] {
            ReaderRound::CompleteSeek(PollOutcome::Ready(_)) => {
                vstd::arithmetic::div_mod::lemma_mod_add_multiples_vanish(
                    bytes_read(rest),
                    file_size,
                );
            },
            _ => {},
        }
    }
}

/// What reading or seeking comes to is passed on as it is, and leaves the state as it is, unless it
/// moves the reader on: the end of the file leads to a seek, a started seek to its completion, and a
/// completed one back to reading.
pub proof fn reader_passes_on_what_does_not_move_it<E>(
    state: TimeshiftFileReaderState,
    round: ReaderRound<E>,
)
    requires
        round_fits(state, round),
    ensures
        match round {
            ReaderRound::Stopped => after_round(state, round) == (
                state,
                ReaderStep::<E>::Return(PollOutcome::Ready(0)),
            ),
            ReaderRound::Read(outcome) => {
                &&& state is Read
                &&& outcome == PollOutcome::<usize, E>::Ready(0) <==> after_round(state, round).1
                    is Continue
                &&& outcome == PollOutcome::<usize, E>::Ready(0) <==> after_round(state, round).0
                    is Seek
                &&& outcome != PollOutcome::<usize, E>::Ready(0) ==> after_round(state, round) == (
                    state,
                    ReaderStep::Return(outcome),
                )
            },
            ReaderRound::StartSeek(outcome) => state is Seek && match outcome {
                PollOutcome::Ready(_) => after_round(state, round) == (
                    TimeshiftFileReaderState::Wait,
                    ReaderStep::<E>::Continue,
                ),
                PollOutcome::Failed(error) => after_round(state, round) == (
                    state,
                    ReaderStep::Return(PollOutcome::Failed(error)),
                ),
                PollOutcome::Pending => after_round(state, round) == (
                    state,
                    ReaderStep::<E>::Return(PollOutcome::Pending),
                ),
            },
            ReaderRound::CompleteSeek(outcome) => state is Wait && match outcome {
                PollOutcome::Ready(_) => after_round(state, round) == (
                    TimeshiftFileReaderState::Read,
                    ReaderStep::<E>::Continue,
                ),
                PollOutcome::Failed(error) => after_round(state, round) == (
                    state,
                    ReaderStep::Return(PollOutcome::Failed(error)),
                ),
                PollOutcome::Pending => after_round(state, round) == (
                    state,
                    ReaderStep::<E>::Return(PollOutcome::Pending),
                ),
            },
        },
{
}

/// What a reader does next is what it can take in: without a stop signal, the outcome of exactly
/// that operation fits, and with one nothing else is done.
pub proof fn reader_can_take_in_what_it_does<E>(
    state: TimeshiftFileReaderState,
    read: PollOutcome<usize, E>,
    start: PollOutcome<(), E>,
)
    ensures
        operation_of(state, true) is Finish,
        !(operation_of(state, false) is Finish),
        operation_of(state, false) is Read <==> round_fits(state, ReaderRound::Read(read)),
        operation_of(state, false) is StartSeek <==> round_fits(
            state,
            ReaderRound::StartSeek(start),
        ),
        operation_of(state, false) is CompleteSeek <==> round_fits(
            state,
            ReaderRound::CompleteSeek(PollOutcome::<u64, E>::Ready(0)),
        ),
        round_fits(state, ReaderRound::<E>::Stopped),
{
}

/// A reader that takes a round in ends the stream only when it is stopped, passes on what was read,
/// and goes back to the beginning of the file at its end.
pub proof fn reader_reads_on_until_it_is_stopped<E>(
    state: &mut TimeshiftFileReaderState,
    round: ReaderRound<E>,
    step: ReaderStep<E>,
)
    requires
        round_fits(*old(state), round),
        call_ensures(TimeshiftFileReaderState::handle::<E>, (state, round), step),
    ensures
        step == ReaderStep::<E>::Return(PollOutcome::Ready(0)) <==> round is Stopped,
        round matches ReaderRound::Read(outcome) ==> outcome != PollOutcome::<usize, E>::Ready(0)
            ==> step == ReaderStep::Return(outcome) && *final(state) == *old(state),
        round == ReaderRound::<E>::Read(PollOutcome::Ready(0)) ==> step is Continue
            && *final(state) is Seek,
        round matches ReaderRound::StartSeek(PollOutcome::Ready(_)) ==> step is Continue
            && *final(state) is Wait,
        round matches ReaderRound::CompleteSeek(PollOutcome::Ready(_)) ==> step is Continue
            && *final(state) is Read,
        round matches ReaderRound::StartSeek(PollOutcome::Failed(error)) ==> step
            == ReaderStep::Return(PollOutcome::Failed(error)) && *final(state) == *old(state),
        round matches ReaderRound::CompleteSeek(PollOutcome::Failed(error)) ==> step
            == ReaderStep::Return(PollOutcome::Failed(error)) && *final(state) == *old(state),
        round matches ReaderRound::StartSeek(PollOutcome::Pending) ==> step == ReaderStep::<
            E,
        >::Return(PollOutcome::Pending) && *final(state) == *old(state),
        round matches ReaderRound::CompleteSeek(PollOutcome::Pending) ==> step == ReaderStep::<
            E,
        >::Return(PollOutcome::Pending) && *final(state) == *old(state),
{
    reader_passes_on_what_does_not_move_it(*old(state), round);
}

} // verus!
