//! The accept loop: bind once, then accept connections and hand each one to
//! a handler of its own.
//!
//! Failing to bind is fatal, and so is a failed accept: either one stops the
//! whole server. What happens on a connection after it was handed over never
//! reaches the accept loop.

use vstd::prelude::*;

verus! {

/// An error that stops the whole server.
#[derive(Clone, Copy, Debug, PartialEq, Eq, Structural)]
pub enum Fatal {
    /// The address could not be bound.
    Bind,
    /// Accepting a connection failed.
    Accept,
}

/// Where the accept loop stands.
#[derive(Clone, Copy, Debug, PartialEq, Eq, Structural)]
pub enum ListenerPhase {
    /// The address is being bound.
    Binding,
    /// Bound, and waiting for the next peer.
    Accepting,
    /// Terminal: the server has stopped.
    Stopped(Fatal),
}

/// The end of one operation of the accept loop.
#[derive(Clone, Copy, Debug, PartialEq, Eq, Structural)]
pub enum ListenerEvent {
    /// The address was bound.
    Bound,
    /// The address is in use or otherwise unavailable.
    BindFailed,
    /// A peer connected.
    Accepted,
    /// The transport failed while accepting.
    AcceptFailed,
}

/// What the driver of the accept loop has to do.
#[derive(Clone, Copy, Debug, PartialEq, Eq, Structural)]
pub enum ListenerAction {
    /// Bind the configured address.
    Bind,
    /// Wait for the next peer.
    Accept,
    /// Schedule exactly one handler for the connection that was just
    /// accepted, without waiting for it to finish, and go on accepting.
    Dispatch,
    /// Stop the server.
    Exit(Fatal),
}

/// An event that does not end the operation the accept loop is waiting for.
#[derive(Clone, Copy, Debug, PartialEq, Eq, Structural)]
pub struct ListenerOutOfTurn {
    /// The phase the accept loop was in, and stays in.
    pub phase: ListenerPhase,
}

/// Whether `event` ends the one operation that is outstanding in `phase`.
pub open spec fn listener_in_turn(phase: ListenerPhase, event: ListenerEvent) -> bool {
    ||| phase is Binding && (event is Bound || event is BindFailed)
    ||| phase is Accepting && (event is Accepted || event is AcceptFailed)
}

/// The transition function. An event that is out of turn changes nothing.
pub open spec fn listener_advance(phase: ListenerPhase, event: ListenerEvent) -> ListenerPhase {
    if !listener_in_turn(phase, event) {
        phase
    } else {
        match event {
            ListenerEvent::Bound => ListenerPhase::Accepting,
            ListenerEvent::BindFailed => ListenerPhase::Stopped(Fatal::Bind),
            ListenerEvent::Accepted => ListenerPhase::Accepting,
            ListenerEvent::AcceptFailed => ListenerPhase::Stopped(Fatal::Accept),
        }
    }
}

/// Whether `event` puts a new connection into the server's hands.
pub open spec fn listener_dispatches(phase: ListenerPhase, event: ListenerEvent) -> bool {
    phase is Accepting && event is Accepted
}

/// The operation that is outstanding in `phase`.
pub open spec fn listener_action_in(phase: ListenerPhase) -> ListenerAction {
    match phase {
        ListenerPhase::Binding => ListenerAction::Bind,
        ListenerPhase::Accepting => ListenerAction::Accept,
        ListenerPhase::Stopped(fatal) => ListenerAction::Exit(fatal),
    }
}

/// What the driver is told to do on an event that is in turn: dispatch the
/// new connection if there is one, and else whatever the next phase needs.
pub open spec fn listener_reaction(phase: ListenerPhase, event: ListenerEvent) -> ListenerAction {
    if listener_dispatches(phase, event) {
        ListenerAction::Dispatch
    } else {
        listener_action_in(listener_advance(phase, event))
    }
}

/// The accept loop of one server.
pub struct Listener {
    phase: ListenerPhase,
}

impl View for Listener {
    type V = ListenerPhase;

    closed spec fn view(&self) -> ListenerPhase {
        self.phase
    }
}

impl Listener {
    /// An accept loop that has yet to bind its address.
    pub fn new() -> (listener: Self)
        ensures
            listener@ == ListenerPhase::Binding,
    {
        Listener { phase: ListenerPhase::Binding }
    }

    /// The phase the accept loop is in.
    pub fn phase(&self) -> (phase: ListenerPhase)
        ensures
            phase == self@,
    {
        self.phase
    }

    /// The operation the driver has to perform next.
    pub fn pending(&self) -> (action: ListenerAction)
        ensures
            action == listener_action_in(self@),
    {
        match self.phase {
            ListenerPhase::Binding => ListenerAction::Bind,
            ListenerPhase::Accepting => ListenerAction::Accept,
            ListenerPhase::Stopped(fatal) => ListenerAction::Exit(fatal),
        }
    }

    /// Tells the accept loop how its outstanding operation ended.
    ///
    /// An event that is in turn moves the loop on: a successful bind starts
    /// accepting, an accepted peer is to be dispatched, and a failed bind or
    /// accept stops the server for good. Any other event is refused and
    /// changes nothing.
    pub fn handle(&mut self, event: ListenerEvent) -> (next: Result<
        ListenerAction,
        ListenerOutOfTurn,
    >)
        ensures
            final(self)@ == listener_advance(old(self)@, event),
            listener_in_turn(old(self)@, event) ==> next == Ok::<
                ListenerAction,
                ListenerOutOfTurn,
            >(listener_reaction(old(self)@, event)),
            !listener_in_turn(old(self)@, event) ==> next == Err::<
                ListenerAction,
                ListenerOutOfTurn,
            >(ListenerOutOfTurn { phase: old(self)@ }),
    {
        match (self.phase, event) {
            (ListenerPhase::Binding, ListenerEvent::Bound) => {
                self.phase = ListenerPhase::Accepting;
                Ok(ListenerAction::Accept)
            },
            (ListenerPhase::Binding, ListenerEvent::BindFailed) => {
                self.phase = ListenerPhase::Stopped(Fatal::Bind);
                Ok(ListenerAction::Exit(Fatal::Bind))
            },
            (ListenerPhase::Accepting, ListenerEvent::Accepted) => Ok(ListenerAction::Dispatch),
            (ListenerPhase::Accepting, ListenerEvent::AcceptFailed) => {
                self.phase = ListenerPhase::Stopped(Fatal::Accept);
                Ok(ListenerAction::Exit(Fatal::Accept))
            },
            _ => Err(ListenerOutOfTurn { phase: self.phase }),
        }
    }
}

} // verus!
