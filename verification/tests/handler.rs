use canned_responder::handler::{
    step, Action, CloseReason, Event, OutOfTurn, Phase, ReadOutcome, WriteOutcome,
};

#[test]
fn non_empty_read_leads_to_responding() {
    assert_eq!(
        step(Phase::Reading, Event::Read(ReadOutcome::Bytes(1))),
        Ok(Phase::Responding)
    );
    assert_eq!(
        step(Phase::Reading, Event::Read(ReadOutcome::Bytes(128))),
        Ok(Phase::Responding)
    );
    assert_eq!(
        step(Phase::Reading, Event::Read(ReadOutcome::Bytes(usize::MAX))),
        Ok(Phase::Responding)
    );
}

#[test]
fn empty_read_closes_in_order() {
    assert_eq!(
        step(Phase::Reading, Event::Read(ReadOutcome::Bytes(0))),
        Ok(Phase::Closed(CloseReason::EndOfStream))
    );
}

#[test]
fn failed_read_closes_the_connection() {
    assert_eq!(
        step(Phase::Reading, Event::Read(ReadOutcome::Failed)),
        Ok(Phase::Closed(CloseReason::ReadFailed))
    );
}

#[test]
fn completed_write_returns_to_reading() {
    assert_eq!(
        step(Phase::Responding, Event::Write(WriteOutcome::Done)),
        Ok(Phase::Reading)
    );
}

#[test]
fn failed_write_closes_the_connection() {
    assert_eq!(
        step(Phase::Responding, Event::Write(WriteOutcome::Failed)),
        Ok(Phase::Closed(CloseReason::WriteFailed))
    );
}

#[test]
fn write_result_while_reading_is_out_of_turn() {
    assert_eq!(
        step(Phase::Reading, Event::Write(WriteOutcome::Done)),
        Err(OutOfTurn { phase: Phase::Reading })
    );
    assert_eq!(
        step(Phase::Reading, Event::Write(WriteOutcome::Failed)),
        Err(OutOfTurn { phase: Phase::Reading })
    );
}

#[test]
fn read_result_while_responding_is_out_of_turn() {
    assert_eq!(
        step(Phase::Responding, Event::Read(ReadOutcome::Bytes(5))),
        Err(OutOfTurn { phase: Phase::Responding })
    );
    assert_eq!(
        step(Phase::Responding, Event::Read(ReadOutcome::Bytes(0))),
        Err(OutOfTurn { phase: Phase::Responding })
    );
}

#[test]
fn closed_refuses_every_event() {
    let reasons = [
        CloseReason::EndOfStream,
        CloseReason::ReadFailed,
        CloseReason::WriteFailed,
    ];
    let events = [
        Event::Read(ReadOutcome::Bytes(0)),
        Event::Read(ReadOutcome::Bytes(7)),
        Event::Read(ReadOutcome::Failed),
        Event::Write(WriteOutcome::Done),
        Event::Write(WriteOutcome::Failed),
    ];
    for reason in reasons {
        for event in events {
            assert_eq!(
                step(Phase::Closed(reason), event),
                Err(OutOfTurn { phase: Phase::Closed(reason) })
            );
        }
    }
}

#[test]
fn each_phase_names_its_operation() {
    assert_eq!(Phase::Reading.action(), Action::Read);
    assert_eq!(Phase::Responding.action(), Action::Respond);
    assert_eq!(Phase::Closed(CloseReason::EndOfStream).action(), Action::Release);
    assert_eq!(Phase::Closed(CloseReason::ReadFailed).action(), Action::Release);
    assert_eq!(Phase::Closed(CloseReason::WriteFailed).action(), Action::Release);
}

#[test]
fn only_closed_phases_are_closed() {
    assert!(!Phase::Reading.is_closed());
    assert!(!Phase::Responding.is_closed());
    assert!(Phase::Closed(CloseReason::EndOfStream).is_closed());
}

#[test]
fn outcomes_name_their_next_phase() {
    assert_eq!(ReadOutcome::Bytes(0).next_phase(), Phase::Closed(CloseReason::EndOfStream));
    assert_eq!(ReadOutcome::Bytes(3).next_phase(), Phase::Responding);
    assert_eq!(ReadOutcome::Failed.next_phase(), Phase::Closed(CloseReason::ReadFailed));
    assert_eq!(WriteOutcome::Done.next_phase(), Phase::Reading);
    assert_eq!(WriteOutcome::Failed.next_phase(), Phase::Closed(CloseReason::WriteFailed));
}
