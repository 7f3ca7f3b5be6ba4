//! The handler for the readiness-based model.
//!
//! The read buffer belongs to the handler for the whole life of the
//! connection. A read borrows it for the length of one call and gives it
//! back when the call returns; the same buffer serves every iteration.

use vstd::prelude::*;
use crate::handler::{action_in, advance, delivered, in_turn, phase_after, step};
use crate::handler::{Action, Event, OutOfTurn, Phase, WriteOutcome};
use crate::payload::response_bytes;

verus! {

/// The buffer size that the shared-pool server gives each connection.
pub const READINESS_BUFFER_CAPACITY: usize = 128;

/// What a [`ReadinessHandler`] is, seen from its contracts.
pub struct ReadinessView {
    /// The phase the handler is in.
    pub phase: Phase,
    /// The contents of the read buffer.
    pub staged: Seq<u8>,
}

/// One connection's handler together with the buffer it reads into.
pub struct ReadinessHandler {
    phase: Phase,
    buffer: Vec<u8>,
}

impl View for ReadinessHandler {
    type V = ReadinessView;

    closed spec fn view(&self) -> ReadinessView {
        ReadinessView { phase: self.phase, staged: self.buffer@ }
    }
}

impl ReadinessHandler {
    /// A handler for a freshly accepted connection: it is about to read, into
    /// a buffer of `capacity` zero bytes.
    pub fn new(capacity: usize) -> (handler: Self)
        ensures
            handler@.phase == Phase::Reading,
            handler@.staged == Seq::new(capacity as nat, |i: int| 0u8),
    {
        let mut buffer: Vec<u8> = Vec::with_capacity(capacity);
        let mut filled: usize = 0;
        while filled < capacity
            invariant
                filled <= capacity,
                buffer@ == Seq::new(filled as nat, |i: int| 0u8),
            decreases capacity - filled,
        {
            buffer.push(0u8);
            filled = filled + 1;
        }
        ReadinessHandler { phase: Phase::Reading, buffer }
    }

    /// The phase the handler is in.
    pub fn phase(&self) -> (phase: Phase)
        ensures
            phase == self@.phase,
    {
        self.phase
    }

    /// The most bytes that one read can return.
    pub fn capacity(&self) -> (capacity: usize)
        ensures
            capacity == self@.staged.len(),
    {
        self.buffer.len()
    }

    /// The operation the driver has to perform next.
    pub fn pending(&self) -> (action: Action)
        ensures
            action == action_in(self@.phase),
    {
        self.phase.action()
    }

    /// Lends the buffer to one read call. The handler gets back whatever the
    /// call left in it, and stays in its phase.
    pub fn buffer_mut(&mut self) -> (buffer: &mut [u8])
        ensures
            buffer@ == old(self)@.staged,
            final(self)@.staged == final(buffer)@,
            final(self)@.phase == old(self)@.phase,
    {
        self.buffer.as_mut_slice()
    }

    /// Tells the handler how its outstanding operation ended.
    ///
    /// An event that is in turn moves the handler on and yields the next
    /// operation; what the buffer holds plays no part in it. Any other event
    /// is refused and leaves the handler as it was.
    pub fn handle(&mut self, event: Event) -> (next: Result<Action, OutOfTurn>)
        ensures
            final(self)@.staged == old(self)@.staged,
            final(self)@.phase == advance(old(self)@.phase, event),
            in_turn(old(self)@.phase, event) ==> next == Ok::<Action, OutOfTurn>(
                action_in(advance(old(self)@.phase, event)),
            ),
            !in_turn(old(self)@.phase, event) ==> next == Err::<Action, OutOfTurn>(
                OutOfTurn { phase: old(self)@.phase },
            ),
    {
        match step(self.phase, event) {
            Ok(phase) => {
                self.phase = phase;
                Ok(phase.action())
            },
            Err(refusal) => Err(refusal),
        }
    }

    /// Serves a recorded connection: tells the handler of `events` in order,
    /// as a driver would, and appends to `wire` each reply whose write was
    /// reported done. Events that are out of turn are passed over.
    pub fn replay(&mut self, events: &Vec<Event>, wire: &mut Vec<u8>)
        ensures
            final(self)@.staged == old(self)@.staged,
            final(self)@.phase == phase_after(old(self)@.phase, events@),
            final(wire)@ == old(wire)@ + delivered(old(self)@.phase, events@),
    {
        let ghost start = self@.phase;
        let mut done: usize = 0;
        assert(events@.take(0) =~= Seq::<Event>::empty());
        assert(wire@ =~= old(wire)@ + delivered(start, events@.take(0)));
        while done < events.len()
            invariant
                done <= events.len(),
                self@.staged == old(self)@.staged,
                self@.phase == phase_after(start, events@.take(done as int)),
                wire@ == old(wire)@ + delivered(start, events@.take(done as int)),
            decreases events.len() - done,
        {
            let event = events[done];
            let responding = match self.phase {
                Phase::Responding => true,
                _ => false,
            };
            let confirmed = match event {
                Event::Write(WriteOutcome::Done) => responding,
                _ => false,
            };
            proof {
                let seen = events@.take(done as int + 1);
                assert(seen.drop_last() =~= events@.take(done as int));
                assert(seen.last() == event);
            }
            let _ = self.handle(event);
            if confirmed {
                let reply = response_bytes();
                let ghost before = wire@;
                wire.extend_from_slice(reply);
                assert(wire@ =~= before + reply@);
            }
            assert(wire@ =~= old(wire)@ + delivered(start, events@.take(done as int + 1)));
            done = done + 1;
        }
        assert(events@.take(done as int) =~= events@);
    }
}

} // verus!
