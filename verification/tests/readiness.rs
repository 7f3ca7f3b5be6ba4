use canned_responder::handler::{
    Action, CloseReason, Event, OutOfTurn, Phase, ReadOutcome, WriteOutcome,
};
use canned_responder::payload::response_bytes;
use canned_responder::readiness::{ReadinessHandler, READINESS_BUFFER_CAPACITY};

#[test]
fn readiness_handler_starts_reading_with_a_zeroed_buffer() {
    let mut handler = ReadinessHandler::new(READINESS_BUFFER_CAPACITY);
    assert_eq!(READINESS_BUFFER_CAPACITY, 128);
    assert_eq!(handler.phase(), Phase::Reading);
    assert_eq!(handler.pending(), Action::Read);
    assert_eq!(handler.capacity(), 128);
    assert_eq!(handler.buffer_mut().len(), 128);
    assert!(handler.buffer_mut().iter().all(|byte| *byte == 0));
}

#[test]
fn readiness_buffer_is_borrowed_and_reused() {
    let mut handler = ReadinessHandler::new(8);
    handler.buffer_mut()[..4].copy_from_slice(b"ping");
    assert_eq!(handler.handle(Event::Read(ReadOutcome::Bytes(4))), Ok(Action::Respond));
    assert_eq!(handler.handle(Event::Write(WriteOutcome::Done)), Ok(Action::Read));
    assert_eq!(&handler.buffer_mut()[..4], b"ping");
    assert_eq!(handler.capacity(), 8);
    handler.buffer_mut()[..2].copy_from_slice(b"ok");
    assert_eq!(&handler.buffer_mut()[..4], b"okng");
    assert_eq!(handler.phase(), Phase::Reading);
}

#[test]
fn readiness_handler_with_zero_capacity_has_an_empty_buffer() {
    let mut handler = ReadinessHandler::new(0);
    assert_eq!(handler.capacity(), 0);
    assert!(handler.buffer_mut().is_empty());
    assert_eq!(handler.phase(), Phase::Reading);
}

#[test]
fn readiness_handler_ignores_what_the_chunk_holds() {
    let chunks: [&[u8]; 3] = [b"GET / HTTP/1.1\r\n\r\n", b"\0\0\0", b"\xff\xfe garbage"];
    for chunk in chunks {
        let mut handler = ReadinessHandler::new(128);
        handler.buffer_mut()[..chunk.len()].copy_from_slice(chunk);
        assert_eq!(
            handler.handle(Event::Read(ReadOutcome::Bytes(chunk.len()))),
            Ok(Action::Respond)
        );
        assert_eq!(handler.phase(), Phase::Responding);
    }
}

#[test]
fn readiness_handler_refuses_out_of_turn_events_and_stays() {
    let mut handler = ReadinessHandler::new(16);
    assert_eq!(
        handler.handle(Event::Write(WriteOutcome::Done)),
        Err(OutOfTurn { phase: Phase::Reading })
    );
    assert_eq!(handler.phase(), Phase::Reading);
    assert_eq!(handler.handle(Event::Read(ReadOutcome::Bytes(1))), Ok(Action::Respond));
    assert_eq!(
        handler.handle(Event::Read(ReadOutcome::Bytes(1))),
        Err(OutOfTurn { phase: Phase::Responding })
    );
    assert_eq!(handler.phase(), Phase::Responding);
    assert_eq!(handler.pending(), Action::Respond);
}

#[test]
fn readiness_read_error_releases_the_connection() {
    let mut handler = ReadinessHandler::new(16);
    assert_eq!(handler.handle(Event::Read(ReadOutcome::Failed)), Ok(Action::Release));
    assert_eq!(handler.phase(), Phase::Closed(CloseReason::ReadFailed));
    assert_eq!(handler.pending(), Action::Release);
    assert_eq!(
        handler.handle(Event::Read(ReadOutcome::Bytes(1))),
        Err(OutOfTurn { phase: Phase::Closed(CloseReason::ReadFailed) })
    );
}

#[test]
fn readiness_write_error_releases_the_connection() {
    let mut handler = ReadinessHandler::new(16);
    assert_eq!(handler.handle(Event::Read(ReadOutcome::Bytes(2))), Ok(Action::Respond));
    assert_eq!(handler.handle(Event::Write(WriteOutcome::Failed)), Ok(Action::Release));
    assert_eq!(handler.phase(), Phase::Closed(CloseReason::WriteFailed));
}

#[test]
fn readiness_replay_appends_one_reply_per_completed_write() {
    let mut handler = ReadinessHandler::new(128);
    let mut wire = vec![1u8, 2, 3];
    let events = vec![
        Event::Read(ReadOutcome::Bytes(5)),
        Event::Write(WriteOutcome::Done),
        Event::Read(ReadOutcome::Bytes(9)),
        Event::Write(WriteOutcome::Done),
        Event::Read(ReadOutcome::Bytes(1)),
    ];
    handler.replay(&events, &mut wire);
    let mut expected = vec![1u8, 2, 3];
    expected.extend_from_slice(response_bytes());
    expected.extend_from_slice(response_bytes());
    assert_eq!(wire, expected);
    assert_eq!(handler.phase(), Phase::Responding);
}

#[test]
fn readiness_replay_passes_over_events_out_of_turn() {
    let mut handler = ReadinessHandler::new(128);
    let mut wire = Vec::new();
    let events = vec![
        Event::Write(WriteOutcome::Done),
        Event::Read(ReadOutcome::Bytes(5)),
        Event::Read(ReadOutcome::Bytes(5)),
        Event::Write(WriteOutcome::Done),
        Event::Write(WriteOutcome::Done),
    ];
    handler.replay(&events, &mut wire);
    assert_eq!(wire, response_bytes());
    assert_eq!(handler.phase(), Phase::Reading);
}

#[test]
fn readiness_replay_of_nothing_changes_nothing() {
    let mut handler = ReadinessHandler::new(4);
    let mut wire = vec![9u8];
    handler.replay(&Vec::new(), &mut wire);
    assert_eq!(wire, vec![9u8]);
    assert_eq!(handler.phase(), Phase::Reading);
}

#[test]
fn readiness_failed_write_delivers_nothing() {
    let mut handler = ReadinessHandler::new(128);
    let mut wire = Vec::new();
    let events = vec![
        Event::Read(ReadOutcome::Bytes(5)),
        Event::Write(WriteOutcome::Failed),
        Event::Read(ReadOutcome::Bytes(5)),
        Event::Write(WriteOutcome::Done),
    ];
    handler.replay(&events, &mut wire);
    assert!(wire.is_empty());
    assert_eq!(handler.phase(), Phase::Closed(CloseReason::WriteFailed));
}
