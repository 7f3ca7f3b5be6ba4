//! The per-connection state machine: read, respond, repeat, close.
//!
//! A handler never touches the transport. It says which operation it wants
//! next, and is told how that operation ended. Both execution models run
//! their connections through the transitions defined here.

use vstd::prelude::*;
use crate::payload::response_payload;

verus! {

/// Why a connection was closed.
#[derive(Clone, Copy, Debug, PartialEq, Eq, Structural)]
pub enum CloseReason {
    /// The peer closed its side: a read returned no bytes.
    EndOfStream,
    /// A read failed.
    ReadFailed,
    /// Writing the reply failed.
    WriteFailed,
}

/// Where a connection's handler stands.
#[derive(Clone, Copy, Debug, PartialEq, Eq, Structural)]
pub enum Phase {
    /// Waiting for the peer's next bytes.
    Reading,
    /// Bytes arrived; the reply is being written.
    Responding,
    /// Terminal: the connection is released and no more I/O happens on it.
    Closed(CloseReason),
}

/// How a read ended.
#[derive(Clone, Copy, Debug, PartialEq, Eq, Structural)]
pub enum ReadOutcome {
    /// The read returned this many bytes; zero means the peer closed the stream.
    Bytes(usize),
    /// The transport reported an error.
    Failed,
}

/// How writing the reply ended.
#[derive(Clone, Copy, Debug, PartialEq, Eq, Structural)]
pub enum WriteOutcome {
    /// Every byte of the reply was accepted by the transport.
    Done,
    /// The transport reported an error before the whole reply was written.
    Failed,
}

/// The end of one transport operation on a connection.
#[derive(Clone, Copy, Debug, PartialEq, Eq, Structural)]
pub enum Event {
    /// A read ended.
    Read(ReadOutcome),
    /// The write of a reply ended.
    Write(WriteOutcome),
}

/// The operation a handler wants performed next.
#[derive(Clone, Copy, Debug, PartialEq, Eq, Structural)]
pub enum Action {
    /// Issue one read of at most the buffer's capacity.
    Read,
    /// Write the whole reply and wait until all of it is sent.
    Respond,
    /// Release the connection; the handler is finished.
    Release,
}

/// An event that does not end the operation the handler is waiting for.
#[derive(Clone, Copy, Debug, PartialEq, Eq, Structural)]
pub struct OutOfTurn {
    /// The phase the handler was in, and stays in.
    pub phase: Phase,
}

/// The phase that follows a read, whatever the bytes were.
pub open spec fn after_read(outcome: ReadOutcome) -> Phase {
    match outcome {
        ReadOutcome::Bytes(n) => if n == 0 {
            Phase::Closed(CloseReason::EndOfStream)
        } else {
            Phase::Responding
        },
        ReadOutcome::Failed => Phase::Closed(CloseReason::ReadFailed),
    }
}

/// The phase that follows an attempt to write the reply.
pub open spec fn after_write(outcome: WriteOutcome) -> Phase {
    match outcome {
        WriteOutcome::Done => Phase::Reading,
        WriteOutcome::Failed => Phase::Closed(CloseReason::WriteFailed),
    }
}

/// Whether `event` ends the one operation that is outstanding in `phase`.
pub open spec fn in_turn(phase: Phase, event: Event) -> bool {
    ||| phase is Reading && event is Read
    ||| phase is Responding && event is Write
}

/// The transition function. An event that is out of turn changes nothing.
pub open spec fn advance(phase: Phase, event: Event) -> Phase {
    if !in_turn(phase, event) {
        phase
    } else {
        match event {
            Event::Read(outcome) => after_read(outcome),
            Event::Write(outcome) => after_write(outcome),
        }
    }
}

/// The operation that is outstanding in `phase`.
pub open spec fn action_in(phase: Phase) -> Action {
    match phase {
        Phase::Reading => Action::Read,
        Phase::Responding => Action::Respond,
        Phase::Closed(_) => Action::Release,
    }
}

/// The bytes that `event` confirms as delivered to the peer: the whole reply
/// when the write of a reply completes, and nothing otherwise.
pub open spec fn delivered_by(phase: Phase, event: Event) -> Seq<u8> {
    if phase is Responding && event == Event::Write(WriteOutcome::Done) {
        response_payload()
    } else {
        Seq::empty()
    }
}

impl ReadOutcome {
    /// The phase a reading handler enters on this outcome.
    pub fn next_phase(self) -> (phase: Phase)
        ensures
            phase == after_read(self),
    {
        match self {
            ReadOutcome::Bytes(n) => {
                if n == 0 {
                    Phase::Closed(CloseReason::EndOfStream)
                } else {
                    Phase::Responding
                }
            },
            ReadOutcome::Failed => Phase::Closed(CloseReason::ReadFailed),
        }
    }
}

impl WriteOutcome {
    /// The phase a responding handler enters on this outcome.
    pub fn next_phase(self) -> (phase: Phase)
        ensures
            phase == after_write(self),
    {
        match self {
            WriteOutcome::Done => Phase::Reading,
            WriteOutcome::Failed => Phase::Closed(CloseReason::WriteFailed),
        }
    }
}

impl Phase {
    /// The operation the driver has to perform in this phase.
    pub fn action(self) -> (action: Action)
        ensures
            action == action_in(self),
    {
        match self {
            Phase::Reading => Action::Read,
            Phase::Responding => Action::Respond,
            Phase::Closed(_) => Action::Release,
        }
    }

    /// Whether the connection has been released.
    pub fn is_closed(self) -> (closed: bool)
        ensures
            closed == (self is Closed),
    {
        match self {
            Phase::Closed(_) => true,
            _ => false,
        }
    }
}

/// Moves a handler from `phase` over `event`.
///
/// Returns the next phase when `event` ends the operation outstanding in
/// `phase`, and [`OutOfTurn`] otherwise: a write result while reading, a read
/// result while responding, and anything at all once closed.
pub fn step(phase: Phase, event: Event) -> (next: Result<Phase, OutOfTurn>)
    ensures
        in_turn(phase, event) ==> next == Ok::<Phase, OutOfTurn>(advance(phase, event)),
        !in_turn(phase, event) ==> next == Err::<Phase, OutOfTurn>(OutOfTurn { phase }),
{
    match (phase, event) {
        (Phase::Reading, Event::Read(outcome)) => Ok(outcome.next_phase()),
        (Phase::Responding, Event::Write(outcome)) => Ok(outcome.next_phase()),
        _ => Err(OutOfTurn { phase }),
    }
}

/// The phase a handler is in after it started in `start` and was told of
/// `events`, in order.
pub open spec fn phase_after(start: Phase, events: Seq<Event>) -> Phase
    decreases events.len(),
{
    if events.len() == 0 {
        start
    } else {
        advance(phase_after(start, events.drop_last()), events.last())
    }
}

/// Every byte confirmed as delivered to the peer while a handler that
/// started in `start` was told of `events`, in wire order.
pub open spec fn delivered(start: Phase, events: Seq<Event>) -> Seq<u8>
    decreases events.len(),
{
    if events.len() == 0 {
        Seq::empty()
    } else {
        delivered(start, events.drop_last()) + delivered_by(
            phase_after(start, events.drop_last()),
            events.last(),
        )
    }
}

/// How many replies were written in full while a handler that started in
/// `start` was told of `events`.
pub open spec fn replies_completed(start: Phase, events: Seq<Event>) -> nat
    decreases events.len(),
{
    if events.len() == 0 {
        0
    } else {
        let before = phase_after(start, events.drop_last());
        let earlier = replies_completed(start, events.drop_last());
        if before is Responding && events.last() == Event::Write(WriteOutcome::Done) {
            earlier + 1
        } else {
            earlier
        }
    }
}

/// `count` copies of the reply, one after the other.
pub open spec fn replies(count: nat) -> Seq<u8>
    decreases count,
{
    if count == 0 {
        Seq::empty()
    } else {
        replies((count - 1) as nat) + response_payload()
    }
}

/// Telling a handler of `first` and then of `second` is the same as telling
/// it of both in one go: the second part starts where the first one ended,
/// and what it delivers follows what the first delivered.
pub proof fn lemma_events_compose(start: Phase, first: Seq<Event>, second: Seq<Event>)
    ensures
        phase_after(start, first + second) == phase_after(phase_after(start, first), second),
        delivered(start, first + second) == delivered(start, first) + delivered(
            phase_after(start, first),
            second,
        ),
    decreases second.len(),
{
    if second.len() == 0 {
        assert(first + second =~= first);
    } else {
        let whole = first + second;
        assert(whole.drop_last() =~= first + second.drop_last());
        assert(whole.last() == second.last());
        lemma_events_compose(start, first, second.drop_last());
    }
}

/// A closed handler stays closed, for the same reason, and delivers nothing
/// more, whatever it is told.
pub proof fn lemma_closed_is_final(reason: CloseReason, events: Seq<Event>)
    ensures
        phase_after(Phase::Closed(reason), events) == Phase::Closed(reason),
        delivered(Phase::Closed(reason), events) == Seq::<u8>::empty(),
    decreases events.len(),
{
    if events.len() > 0 {
        lemma_closed_is_final(reason, events.drop_last());
    }
}

/// Response correctness: whenever a handler is reading and a read returns at
/// least one byte, the handler asks for the reply to be written, nothing is
/// delivered before that write, and once the write is done the peer has
/// received exactly the reply as its very next bytes. Neither the size of
/// the chunk nor its content matters. The handler is then reading again.
pub proof fn lemma_chunk_is_answered(start: Phase, history: Seq<Event>, size: usize)
    requires
        phase_after(start, history) is Reading,
        size > 0,
    ensures
        ({
            let read = history.push(Event::Read(ReadOutcome::Bytes(size)));
            let answered = read.push(Event::Write(WriteOutcome::Done));
            &&& action_in(phase_after(start, read)) == Action::Respond
            &&& delivered(start, read) == delivered(start, history)
            &&& delivered(start, answered) == delivered(start, history) + response_payload()
            &&& phase_after(start, answered) is Reading
        }),
{
    let read = history.push(Event::Read(ReadOutcome::Bytes(size)));
    let answered = read.push(Event::Write(WriteOutcome::Done));
    assert(read.drop_last() =~= history);
    assert(answered.drop_last() =~= read);
    assert(phase_after(start, read) is Responding);
    assert(delivered(start, read) =~= delivered(start, history));
}

/// Orderly close: when a handler is reading and the peer closes its side
/// before sending anything more, the handler releases the connection, and
/// from then on delivers no byte, whatever else it is told.
pub proof fn lemma_orderly_close(start: Phase, history: Seq<Event>, rest: Seq<Event>)
    requires
        phase_after(start, history) is Reading,
    ensures
        ({
            let closed = history.push(Event::Read(ReadOutcome::Bytes(0)));
            &&& phase_after(start, closed) == Phase::Closed(CloseReason::EndOfStream)
            &&& action_in(phase_after(start, closed)) == Action::Release
            &&& phase_after(start, closed + rest) == Phase::Closed(CloseReason::EndOfStream)
            &&& delivered(start, closed + rest) == delivered(start, history)
        }),
{
    let closed = history.push(Event::Read(ReadOutcome::Bytes(0)));
    assert(closed.drop_last() =~= history);
    assert(delivered(start, closed) =~= delivered(start, history));
    lemma_events_compose(start, closed, rest);
    lemma_closed_is_final(CloseReason::EndOfStream, rest);
    assert(delivered(start, closed + rest) =~= delivered(start, history));
}

/// A failed read or a failed write closes the connection it happened on,
/// with the failure recorded, and that connection delivers nothing more.
pub proof fn lemma_failure_closes(start: Phase, history: Seq<Event>, rest: Seq<Event>)
    ensures
        ({
            let read_failed = history.push(Event::Read(ReadOutcome::Failed));
            phase_after(start, history) is Reading ==> {
                &&& phase_after(start, read_failed + rest) == Phase::Closed(CloseReason::ReadFailed)
                &&& delivered(start, read_failed + rest) == delivered(start, history)
            }
        }),
        ({
            let write_failed = history.push(Event::Write(WriteOutcome::Failed));
            phase_after(start, history) is Responding ==> {
                &&& phase_after(start, write_failed + rest) == Phase::Closed(
                    CloseReason::WriteFailed,
                )
                &&& delivered(start, write_failed + rest) == delivered(start, history)
            }
        }),
{
    let read_failed = history.push(Event::Read(ReadOutcome::Failed));
    let write_failed = history.push(Event::Write(WriteOutcome::Failed));
    assert(read_failed.drop_last() =~= history);
    assert(write_failed.drop_last() =~= history);
    lemma_events_compose(start, read_failed, rest);
    lemma_events_compose(start, write_failed, rest);
    if phase_after(start, history) is Reading {
        lemma_closed_is_final(CloseReason::ReadFailed, rest);
        assert(delivered(start, read_failed) =~= delivered(start, history));
        assert(delivered(start, read_failed + rest) =~= delivered(start, history));
    }
    if phase_after(start, history) is Responding {
        lemma_closed_is_final(CloseReason::WriteFailed, rest);
        assert(delivered(start, write_failed) =~= delivered(start, history));
        assert(delivered(start, write_failed + rest) =~= delivered(start, history));
    }
}

/// A handler never closes a connection that the peer keeps open: it closes
/// only when a read returns no bytes, a read fails, or a write fails.
pub proof fn lemma_closes_only_on_end_or_failure(phase: Phase, event: Event)
    requires
        !(phase is Closed),
        advance(phase, event) is Closed,
    ensures
        ({
            ||| event == Event::Read(ReadOutcome::Bytes(0))
            ||| event == Event::Read(ReadOutcome::Failed)
            ||| event == Event::Write(WriteOutcome::Failed)
        }),
{
}

/// What a connection delivers is always a whole number of replies: one for
/// each write that completed, none cut short, none altered.
pub proof fn lemma_delivered_is_whole_replies(start: Phase, events: Seq<Event>)
    ensures
        delivered(start, events) == replies(replies_completed(start, events)),
    decreases events.len(),
{
    if events.len() > 0 {
        lemma_delivered_is_whole_replies(start, events.drop_last());
        let before = phase_after(start, events.drop_last());
        if before is Responding && events.last() == Event::Write(WriteOutcome::Done) {
        } else {
            assert(delivered(start, events) =~= delivered(start, events.drop_last()));
        }
    }
}

} // verus!
