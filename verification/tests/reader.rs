use mirakc::timeshift::reader::{
    PollOutcome, ReaderOperation, ReaderRound, ReaderStep, TimeshiftFileReader,
    TimeshiftFileReaderState,
};

/// Reads from a ring in memory until it has given a number of bytes.
fn read_ring(ring: &[u8], pos: usize, count: usize, buf_size: usize) -> Vec<u8> {
    let mut reader = TimeshiftFileReader::new("ring".to_string(), pos, ());
    let mut bytes: Vec<u8> = Vec::new();
    while bytes.len() < count {
        let round: ReaderRound<()> = match reader.state.operation(false) {
            ReaderOperation::Read => {
                let n = buf_size.min(ring.len() - reader.file).min(count - bytes.len());
                bytes.extend_from_slice(&ring[reader.file..reader.file + n]);
                reader.file += n;
                ReaderRound::Read(PollOutcome::Ready(n))
            }
            ReaderOperation::StartSeek => ReaderRound::StartSeek(PollOutcome::Ready(())),
            ReaderOperation::CompleteSeek => {
                reader.file = 0;
                ReaderRound::CompleteSeek(PollOutcome::Ready(0))
            }
            ReaderOperation::Finish => unreachable!(),
        };
        match reader.state.handle(round) {
            ReaderStep::Continue => (),
            ReaderStep::Return(PollOutcome::Ready(n)) => assert!(n > 0),
            ReaderStep::Return(_) => unreachable!(),
        }
    }
    bytes
}

#[test]
fn test_file_is_read_around_its_end() {
    assert_eq!(read_ring(b"0123456789", 7, 8, 100), b"78901234");
    assert_eq!(read_ring(b"0123456789", 7, 25, 4), b"7890123456789012345678901");
    assert_eq!(read_ring(b"0123456789", 10, 3, 2), b"012");
}

#[test]
fn test_stop_signal_ends_the_stream() {
    for state in [
        TimeshiftFileReaderState::Read,
        TimeshiftFileReaderState::Seek,
        TimeshiftFileReaderState::Wait,
    ] {
        assert_eq!(state.operation(true), ReaderOperation::Finish);
        let mut stopped = state;
        let step = stopped.handle(ReaderRound::<()>::Stopped);
        assert!(matches!(step, ReaderStep::Return(PollOutcome::Ready(0))));
        assert_eq!(stopped, state);
    }
}

#[test]
fn test_end_of_file_leads_to_a_seek() {
    let mut state = TimeshiftFileReaderState::Read;
    assert_eq!(state.operation(false), ReaderOperation::Read);
    let step = state.handle(ReaderRound::<()>::Read(PollOutcome::Ready(0)));
    assert!(matches!(step, ReaderStep::Continue));
    assert_eq!(state, TimeshiftFileReaderState::Seek);
    assert_eq!(state.operation(false), ReaderOperation::StartSeek);
    let step = state.handle(ReaderRound::<()>::StartSeek(PollOutcome::Ready(())));
    assert!(matches!(step, ReaderStep::Continue));
    assert_eq!(state, TimeshiftFileReaderState::Wait);
    assert_eq!(state.operation(false), ReaderOperation::CompleteSeek);
    let step = state.handle(ReaderRound::<()>::CompleteSeek(PollOutcome::Ready(0)));
    assert!(matches!(step, ReaderStep::Continue));
    assert_eq!(state, TimeshiftFileReaderState::Read);
}

#[test]
fn test_pending_and_failed_operations_are_passed_on() {
    let mut state = TimeshiftFileReaderState::Read;
    let step = state.handle(ReaderRound::<&str>::Read(PollOutcome::Pending));
    assert!(matches!(step, ReaderStep::Return(PollOutcome::Pending)));
    let step = state.handle(ReaderRound::Read(PollOutcome::Failed("read")));
    assert!(matches!(step, ReaderStep::Return(PollOutcome::Failed("read"))));
    assert_eq!(state, TimeshiftFileReaderState::Read);
    let mut state = TimeshiftFileReaderState::Seek;
    let step = state.handle(ReaderRound::<&str>::StartSeek(PollOutcome::Pending));
    assert!(matches!(step, ReaderStep::Return(PollOutcome::Pending)));
    let step = state.handle(ReaderRound::StartSeek(PollOutcome::Failed("seek")));
    assert!(matches!(step, ReaderStep::Return(PollOutcome::Failed("seek"))));
    assert_eq!(state, TimeshiftFileReaderState::Seek);
    let mut state = TimeshiftFileReaderState::Wait;
    let step = state.handle(ReaderRound::<&str>::CompleteSeek(PollOutcome::Pending));
    assert!(matches!(step, ReaderStep::Return(PollOutcome::Pending)));
    let step = state.handle(ReaderRound::CompleteSeek(PollOutcome::Failed("wait")));
    assert!(matches!(step, ReaderStep::Return(PollOutcome::Failed("wait"))));
    assert_eq!(state, TimeshiftFileReaderState::Wait);
}
