use mirakc::mpeg_ts_stream::{
    MpegTsStream, MpegTsStreamTerminator, PipeAction, PipeEnd, PipeEvent, PipeState,
};

/// Runs a pipe on the chunks that a stream gives, and gives what was written and how it ended.
fn run_pipe(chunks: Vec<Result<&[u8], bool>>, fail_write: Option<bool>) -> (Vec<u8>, PipeEnd) {
    let mut chunks = chunks.into_iter();
    let mut written: Vec<u8> = Vec::new();
    let mut state = PipeState::Reading;
    let mut ended = Vec::new();
    let mut event = match chunks.next() {
        Some(Ok(chunk)) => PipeEvent::Chunk(chunk),
        Some(Err(broken_pipe)) => PipeEvent::ReadFailed { broken_pipe },
        None => PipeEvent::Eof,
    };
    loop {
        event = match state.handle(event) {
            PipeAction::Read => match chunks.next() {
                Some(Ok(chunk)) => PipeEvent::Chunk(chunk),
                Some(Err(broken_pipe)) => PipeEvent::ReadFailed { broken_pipe },
                None => PipeEvent::Eof,
            },
            PipeAction::Write(chunk) => match fail_write {
                Some(broken_pipe) => PipeEvent::WriteFailed { broken_pipe },
                None => {
                    written.extend_from_slice(chunk);
                    PipeEvent::Written
                }
            },
            PipeAction::ShutDown(end) => {
                ended.push(end);
                PipeEvent::ShutDown
            }
            PipeAction::Finish => {
                assert_eq!(state, PipeState::Finished);
                assert_eq!(ended.len(), 1);
                return (written, ended[0]);
            }
        };
    }
}

#[test]
fn test_pipe() {
    let stream = MpegTsStream::new(0, vec![Ok::<&[u8], bool>(b"hello")]);
    assert_eq!(stream.id(), 0);
    let (written, end) = run_pipe(stream.stream, None);
    assert_eq!(written.as_slice(), b"hello");
    assert_eq!(end, PipeEnd::EofReached);
}

#[test]
fn test_pipe_keeps_the_order_of_chunks() {
    let (written, end) = run_pipe(vec![Ok(b"ab"), Ok(b""), Ok(b"cd")], None);
    assert_eq!(written.as_slice(), b"abcd");
    assert_eq!(end, PipeEnd::EofReached);
}

#[test]
fn test_pipe_ends_when_upstream_fails() {
    let (written, end) = run_pipe(vec![Ok(b"ab"), Err(true), Ok(b"cd")], None);
    assert_eq!(written.as_slice(), b"ab");
    assert_eq!(end, PipeEnd::UpstreamClosed);
    let (_, end) = run_pipe(vec![Err(false)], None);
    assert_eq!(end, PipeEnd::UpstreamFailed);
}

#[test]
fn test_pipe_ends_when_downstream_fails() {
    let (written, end) = run_pipe(vec![Ok(b"ab"), Ok(b"cd")], Some(true));
    assert!(written.is_empty());
    assert_eq!(end, PipeEnd::DownstreamClosed);
    let (_, end) = run_pipe(vec![Ok(b"ab")], Some(false));
    assert_eq!(end, PipeEnd::DownstreamFailed);
}

#[test]
fn test_streams_are_not_decoded_at_first() {
    let stream = MpegTsStream::new(3, 'x');
    assert!(!stream.is_decoded());
    assert_eq!(stream.range, None);
    let stream = stream.decoded();
    assert!(stream.is_decoded());
    assert_eq!((stream.id(), stream.stream), (3, 'x'));
}

#[test]
fn test_terminator_owns_its_trigger() {
    let terminator = MpegTsStreamTerminator::new("stream", "trigger");
    assert_eq!(terminator.inner, "stream");
    assert_eq!(terminator.stop_trigger, "trigger");
}
