//! The handler for the completion-based model.
//!
//! A completion-based read needs the buffer for itself until it is done, so
//! the handler gives the buffer away when the read is submitted and takes it
//! back together with the result. While the buffer is out, the handler holds
//! nothing that could be read or written.

use vstd::prelude::*;
use crate::handler::{action_in, after_read, after_write, delivered, delivered_by, phase_after};
use crate::handler::{Action, Event, OutOfTurn, Phase, ReadOutcome, WriteOutcome};
use crate::payload::response_bytes;

verus! {

/// The buffer size that each per-core loop gives a connection.
pub const COMPLETION_BUFFER_CAPACITY: usize = 1024;

/// What a [`CompletionHandler`] is, seen from its contracts.
pub struct CompletionView {
    /// The phase the handler is in.
    pub phase: Phase,
    /// The contents of the buffer while the handler holds it; `None` while a
    /// read owns it.
    pub held: Option<Seq<u8>>,
}

impl CompletionView {
    /// The buffer is only ever away while a read is outstanding.
    pub open spec fn well_formed(self) -> bool {
        self.held is None ==> self.phase is Reading
    }

    /// Whether a read can be submitted: the handler wants to read and has
    /// the buffer.
    pub open spec fn can_submit(self) -> bool {
        self.phase is Reading && self.held is Some
    }

    /// Whether a read is outstanding: the handler wants to read and the
    /// buffer is away.
    pub open spec fn read_in_flight(self) -> bool {
        self.phase is Reading && self.held is None
    }

    /// The handler after the buffer went out with a read.
    pub open spec fn submitted(self) -> CompletionView {
        if self.can_submit() {
            CompletionView { phase: self.phase, held: None }
        } else {
            self
        }
    }

    /// The handler after a read came back with `outcome`, returning a buffer
    /// that holds `returned`.
    pub open spec fn read_completed(self, outcome: ReadOutcome, returned: Seq<u8>) -> CompletionView {
        if self.read_in_flight() {
            CompletionView { phase: after_read(outcome), held: Some(returned) }
        } else {
            self
        }
    }

    /// The handler after the write of the reply ended with `outcome`.
    pub open spec fn write_completed(self, outcome: WriteOutcome) -> CompletionView {
        if self.phase is Responding {
            CompletionView { phase: after_write(outcome), held: self.held }
        } else {
            self
        }
    }

    /// The handler after a driver told it of `event`: for the end of a read,
    /// by submitting the read and completing it with the buffer that went
    /// out; for the end of a write, by completing the write.
    pub open spec fn told(self, event: Event) -> CompletionView {
        match event {
            Event::Read(outcome) => if self.can_submit() {
                self.submitted().read_completed(outcome, self.held.unwrap())
            } else {
                self
            },
            Event::Write(outcome) => self.write_completed(outcome),
        }
    }

    /// The handler after a driver told it of `events`, in order.
    pub open spec fn told_all(self, events: Seq<Event>) -> CompletionView
        decreases events.len(),
    {
        if events.len() == 0 {
            self
        } else {
            self.told_all(events.drop_last()).told(events.last())
        }
    }

    /// Every byte confirmed as delivered to the peer while a driver told the
    /// handler of `events`, in wire order.
    pub open spec fn delivered_all(self, events: Seq<Event>) -> Seq<u8>
        decreases events.len(),
    {
        if events.len() == 0 {
            Seq::empty()
        } else {
            self.delivered_all(events.drop_last()) + delivered_by(
                self.told_all(events.drop_last()).phase,
                events.last(),
            )
        }
    }
}

/// A buffer that came back when no read was outstanding. It is handed
/// straight back to the caller.
#[derive(Debug)]
pub struct Unclaimed {
    /// The phase the handler was in, and stays in.
    pub refusal: OutOfTurn,
    /// The buffer that the handler did not take.
    pub buffer: Vec<u8>,
}

/// One connection's handler, and the buffer whenever no read has it.
pub struct CompletionHandler {
    phase: Phase,
    slot: Option<Vec<u8>>,
}

impl View for CompletionHandler {
    type V = CompletionView;

    closed spec fn view(&self) -> CompletionView {
        CompletionView {
            phase: self.phase,
            held: match self.slot {
                Some(buffer) => Some(buffer@),
                None => None,
            },
        }
    }
}

impl CompletionHandler {
    /// A handler for a freshly accepted connection: it is about to read and
    /// holds an empty buffer with room for `capacity` bytes.
    pub fn new(capacity: usize) -> (handler: Self)
        ensures
            handler@.phase == Phase::Reading,
            handler@.held == Some(Seq::<u8>::empty()),
    {
        CompletionHandler { phase: Phase::Reading, slot: Some(Vec::with_capacity(capacity)) }
    }

    /// The phase the handler is in.
    pub fn phase(&self) -> (phase: Phase)
        ensures
            phase == self@.phase,
    {
        self.phase
    }

    /// Whether a read currently owns the buffer.
    pub fn is_lent(&self) -> (lent: bool)
        ensures
            lent == (self@.held is None),
    {
        self.slot.is_none()
    }

    /// The operation the driver has to perform next.
    pub fn pending(&self) -> (action: Action)
        ensures
            action == action_in(self@.phase),
    {
        self.phase.action()
    }

    /// Starts a read by giving up the buffer.
    ///
    /// Returns the buffer when the handler wants to read and still has it;
    /// from then on the handler holds nothing until the read is completed.
    /// Returns `None`, and changes nothing, in every other state.
    pub fn submit_read(&mut self) -> (lent: Option<Vec<u8>>)
        ensures
            final(self)@ == old(self)@.submitted(),
            old(self)@.can_submit() ==> lent is Some && Some(lent.unwrap()@) == old(self)@.held,
            !old(self)@.can_submit() ==> lent is None,
    {
        match self.phase {
            Phase::Reading => self.slot.take(),
            _ => None,
        }
    }

    /// Completes the outstanding read: takes the buffer back and moves on by
    /// `outcome`, whatever the buffer now holds.
    ///
    /// When no read is outstanding the handler stays as it is and the buffer
    /// goes back to the caller.
    pub fn complete_read(&mut self, outcome: ReadOutcome, buffer: Vec<u8>) -> (next: Result<
        Action,
        Unclaimed,
    >)
        ensures
            final(self)@ == old(self)@.read_completed(outcome, buffer@),
            old(self)@.read_in_flight() ==> next == Ok::<Action, Unclaimed>(
                action_in(after_read(outcome)),
            ),
            !old(self)@.read_in_flight() ==> next == Err::<Action, Unclaimed>(
                Unclaimed { refusal: OutOfTurn { phase: old(self)@.phase }, buffer },
            ),
    {
        let in_flight = match self.phase {
            Phase::Reading => self.slot.is_none(),
            _ => false,
        };
        if in_flight {
            self.slot = Some(buffer);
            let phase = outcome.next_phase();
            self.phase = phase;
            Ok(phase.action())
        } else {
            Err(Unclaimed { refusal: OutOfTurn { phase: self.phase }, buffer })
        }
    }

    /// Tells the handler how the write of the reply ended.
    ///
    /// While responding this moves the handler on and yields the next
    /// operation; in any other phase it is refused and changes nothing.
    pub fn complete_write(&mut self, outcome: WriteOutcome) -> (next: Result<Action, OutOfTurn>)
        ensures
            final(self)@ == old(self)@.write_completed(outcome),
            old(self)@.phase is Responding ==> next == Ok::<Action, OutOfTurn>(
                action_in(after_write(outcome)),
            ),
            !(old(self)@.phase is Responding) ==> next == Err::<Action, OutOfTurn>(
                OutOfTurn { phase: old(self)@.phase },
            ),
    {
        match self.phase {
            Phase::Responding => {
                let phase = outcome.next_phase();
                self.phase = phase;
                Ok(phase.action())
            },
            _ => Err(OutOfTurn { phase: self.phase }),
        }
    }

    /// Serves a recorded connection: tells the handler of `events` in order,
    /// as a driver would, and appends to `wire` each reply whose write was
    /// reported done. For the end of a read the buffer is given up and taken
    /// back; events that are out of turn are passed over.
    ///
    /// A handler that holds its buffer ends in the phase, and puts on the
    /// wire the bytes, that a readiness-based handler would.
    pub fn replay(&mut self, events: &Vec<Event>, wire: &mut Vec<u8>)
        ensures
            final(self)@ == old(self)@.told_all(events@),
            final(wire)@ == old(wire)@ + old(self)@.delivered_all(events@),
            old(self)@.held is Some ==> {
                &&& final(self)@.phase == phase_after(old(self)@.phase, events@)
                &&& final(self)@.held == old(self)@.held
                &&& final(wire)@ == old(wire)@ + delivered(old(self)@.phase, events@)
            },
    {
        let ghost start = self@;
        proof {
            if start.held is Some {
                lemma_models_agree(start, events@);
            }
        }
        let mut done: usize = 0;
        assert(events@.take(0) =~= Seq::<Event>::empty());
        assert(wire@ =~= old(wire)@ + start.delivered_all(events@.take(0)));
        while done < events.len()
            invariant
                done <= events.len(),
                self@ == start.told_all(events@.take(done as int)),
                wire@ == old(wire)@ + start.delivered_all(events@.take(done as int)),
            decreases events.len() - done,
        {
            let event = events[done];
            proof {
                let seen = events@.take(done as int + 1);
                assert(seen.drop_last() =~= events@.take(done as int));
                assert(seen.last() == event);
            }
            let ghost before = wire@;
            match event {
                Event::Read(outcome) => {
                    match self.submit_read() {
                        Some(buffer) => {
                            let _ = self.complete_read(outcome, buffer);
                        },
                        None => {},
                    }
                },
                Event::Write(outcome) => {
                    let responding = match self.phase {
                        Phase::Responding => true,
                        _ => false,
                    };
                    let _ = self.complete_write(outcome);
                    let confirmed = match outcome {
                        WriteOutcome::Done => responding,
                        WriteOutcome::Failed => false,
                    };
                    if confirmed {
                        let reply = response_bytes();
                        wire.extend_from_slice(reply);
                        assert(wire@ =~= before + reply@);
                    }
                },
            }
            assert(wire@ =~= old(wire)@ + start.delivered_all(events@.take(done as int + 1)));
            done = done + 1;
        }
        assert(events@.take(done as int) =~= events@);
    }
}

/// Whatever is done to a handler, the buffer is only ever away while a read
/// is outstanding.
pub proof fn lemma_well_formed_is_kept(
    handler: CompletionView,
    read: ReadOutcome,
    write: WriteOutcome,
    returned: Seq<u8>,
    event: Event,
)
    requires
        handler.well_formed(),
    ensures
        handler.submitted().well_formed(),
        handler.read_completed(read, returned).well_formed(),
        handler.write_completed(write).well_formed(),
        handler.told(event).well_formed(),
{
}

/// What a completed read leads to does not depend on what the returned
/// buffer holds.
pub proof fn lemma_read_ignores_bytes(
    handler: CompletionView,
    outcome: ReadOutcome,
    one: Seq<u8>,
    other: Seq<u8>,
)
    ensures
        handler.read_completed(outcome, one).phase == handler.read_completed(outcome, other).phase,
{
}

/// Model equivalence: told of the same events, a completion-based handler
/// that holds its buffer goes through the same phases as a readiness-based
/// handler and delivers the same bytes to the peer. It ends holding the
/// buffer again.
pub proof fn lemma_models_agree(handler: CompletionView, events: Seq<Event>)
    requires
        handler.held is Some,
    ensures
        handler.told_all(events).phase == phase_after(handler.phase, events),
        handler.delivered_all(events) == delivered(handler.phase, events),
        handler.told_all(events).held == handler.held,
    decreases events.len(),
{
    if events.len() > 0 {
        lemma_models_agree(handler, events.drop_last());
    }
}

} // verus!
