use easycontainer::process::drain::{DrainAction, DrainEvent, DrainPhase, StreamDrain};
use easycontainer::process::outcome::{DrainEnd, StreamKind};

#[test]
fn new_drain_wants_to_read() {
    let d = StreamDrain::new(StreamKind::Stdout);
    assert_eq!(d.stream(), StreamKind::Stdout);
    assert_eq!(d.phase(), DrainPhase::Reading);
    assert_eq!(d.awaited(), DrainAction::Read);
    assert_eq!(d.end(), None);
}

#[test]
fn chunk_is_written_as_read_to_the_matching_stream() {
    let mut out = StreamDrain::new(StreamKind::Stdout);
    assert_eq!(
        out.on_event(DrainEvent::Read(vec![104, 105, 10])),
        DrainAction::Write { to: StreamKind::Stdout, bytes: vec![104, 105, 10] }
    );
    assert_eq!(out.phase(), DrainPhase::Writing);
    let mut err = StreamDrain::new(StreamKind::Stderr);
    assert_eq!(
        err.on_event(DrainEvent::Read(vec![0, 255])),
        DrainAction::Write { to: StreamKind::Stderr, bytes: vec![0, 255] }
    );
}

#[test]
fn drain_forwards_chunks_in_order_until_end_of_stream() {
    let mut d = StreamDrain::new(StreamKind::Stdout);
    let chunks: Vec<Vec<u8>> = vec![vec![1, 2, 3], vec![4], vec![5, 6]];
    let mut written: Vec<u8> = Vec::new();
    for chunk in chunks.iter() {
        match d.on_event(DrainEvent::Read(chunk.clone())) {
            DrainAction::Write { to, bytes } => {
                assert_eq!(to, StreamKind::Stdout);
                written.extend_from_slice(&bytes);
            }
            other => panic!("expected a write, got {:?}", other),
        }
        assert_eq!(d.on_event(DrainEvent::Written), DrainAction::Read);
    }
    assert_eq!(d.on_event(DrainEvent::Read(Vec::new())), DrainAction::Stop(DrainEnd::EndOfStream));
    assert_eq!(d.end(), Some(DrainEnd::EndOfStream));
    assert_eq!(written, vec![1, 2, 3, 4, 5, 6]);
}

#[test]
fn empty_read_ends_the_drain() {
    let mut d = StreamDrain::new(StreamKind::Stderr);
    assert_eq!(d.on_event(DrainEvent::Read(Vec::new())), DrainAction::Stop(DrainEnd::EndOfStream));
    assert_eq!(d.phase(), DrainPhase::Stopped(DrainEnd::EndOfStream));
}

#[test]
fn failed_read_ends_the_drain() {
    let mut d = StreamDrain::new(StreamKind::Stdout);
    d.on_event(DrainEvent::Read(vec![1]));
    d.on_event(DrainEvent::Written);
    assert_eq!(d.on_event(DrainEvent::ReadFailed), DrainAction::Stop(DrainEnd::ReadFailed));
    assert_eq!(d.end(), Some(DrainEnd::ReadFailed));
}

#[test]
fn failed_write_ends_the_drain_without_retry() {
    let mut d = StreamDrain::new(StreamKind::Stdout);
    d.on_event(DrainEvent::Read(vec![1, 2]));
    assert_eq!(d.on_event(DrainEvent::WriteFailed), DrainAction::Stop(DrainEnd::WriteFailed));
    assert_eq!(d.end(), Some(DrainEnd::WriteFailed));
    assert_eq!(d.on_event(DrainEvent::Written), DrainAction::Stop(DrainEnd::WriteFailed));
    assert_eq!(d.on_event(DrainEvent::Read(vec![3])), DrainAction::Stop(DrainEnd::WriteFailed));
}

#[test]
fn stopped_drain_ignores_every_event() {
    let mut d = StreamDrain::new(StreamKind::Stdout);
    d.on_event(DrainEvent::Read(Vec::new()));
    for event in [
        DrainEvent::Read(vec![9]),
        DrainEvent::Read(Vec::new()),
        DrainEvent::ReadFailed,
        DrainEvent::Written,
        DrainEvent::WriteFailed,
    ] {
        assert_eq!(d.on_event(event), DrainAction::Stop(DrainEnd::EndOfStream));
        assert_eq!(d.end(), Some(DrainEnd::EndOfStream));
    }
}

#[test]
fn drain_events_out_of_turn_change_nothing() {
    let mut d = StreamDrain::new(StreamKind::Stdout);
    assert_eq!(d.on_event(DrainEvent::Written), DrainAction::Read);
    assert_eq!(d.on_event(DrainEvent::WriteFailed), DrainAction::Read);
    assert_eq!(d.phase(), DrainPhase::Reading);
    d.on_event(DrainEvent::Read(vec![7, 8]));
    let again = DrainAction::Write { to: StreamKind::Stdout, bytes: vec![7, 8] };
    assert_eq!(d.on_event(DrainEvent::Read(vec![1])), again);
    assert_eq!(d.on_event(DrainEvent::ReadFailed), again);
    assert_eq!(d.awaited(), again);
    assert_eq!(d.phase(), DrainPhase::Writing);
    assert_eq!(d.on_event(DrainEvent::Written), DrainAction::Read);
}
