//! The server as a whole: one accept loop and the connections it has handed
//! out, each with a handler of its own.
//!
//! Nothing here runs. It is the model against which isolation is stated:
//! connections share no state, so what happens on one of them, failures
//! included, leaves every other connection and the accept loop untouched.

use vstd::prelude::*;
use crate::handler::{advance, delivered, delivered_by, phase_after};
use crate::handler::{Event, Phase, ReadOutcome, WriteOutcome};
use crate::listener::{listener_advance, listener_dispatches};
use crate::listener::{ListenerEvent, ListenerPhase};
use crate::payload::response_payload;

verus! {

/// One accepted connection: where its handler stands, and what its peer has
/// received so far.
pub struct Connection {
    /// The phase of the connection's handler.
    pub phase: Phase,
    /// Every byte delivered to the peer so far, in wire order.
    pub delivered: Seq<u8>,
}

/// Something that happens in the server: at the accept loop, or on the
/// connection with the given number.
pub enum ServerEvent {
    /// An operation of the accept loop ended.
    Listener(ListenerEvent),
    /// An operation on the connection with this number ended.
    Connection(nat, Event),
}

/// The accept loop and every connection accepted so far. Connections are
/// numbered in the order in which they were accepted.
pub struct Server {
    /// The phase of the accept loop.
    pub listener: ListenerPhase,
    /// How many connections were accepted; the next one gets this number.
    pub accepted: nat,
    /// The connections accepted so far, by number.
    pub connections: Map<nat, Connection>,
}

impl Connection {
    /// A connection as its handler first sees it.
    pub open spec fn fresh() -> Connection {
        Connection { phase: Phase::Reading, delivered: Seq::empty() }
    }

    /// The connection after its handler was told of `event`.
    pub open spec fn told(self, event: Event) -> Connection {
        Connection {
            phase: advance(self.phase, event),
            delivered: self.delivered + delivered_by(self.phase, event),
        }
    }

    /// The connection after its handler was told of `events`, in order.
    pub open spec fn told_all(self, events: Seq<Event>) -> Connection {
        Connection {
            phase: phase_after(self.phase, events),
            delivered: self.delivered + delivered(self.phase, events),
        }
    }
}

impl Server {
    /// A server that has yet to bind its address.
    pub open spec fn initial() -> Server {
        Server { listener: ListenerPhase::Binding, accepted: 0, connections: Map::empty() }
    }

    /// Only connections that were accepted exist.
    pub open spec fn well_formed(self) -> bool {
        forall|id: nat| self.connections.contains_key(id) ==> id < self.accepted
    }

    /// Whether connection `id` is being served: it was accepted, and the
    /// server has not stopped.
    pub open spec fn serves(self, id: nat) -> bool {
        self.listener is Accepting && self.connections.contains_key(id)
    }

    /// The connection with number `id` as it stands, or as it will first be
    /// seen if it has not been accepted yet.
    pub open spec fn connection(self, id: nat) -> Connection {
        if self.connections.contains_key(id) {
            self.connections[id]
        } else {
            Connection::fresh()
        }
    }

    /// The server after `event`.
    ///
    /// An accepted peer becomes a new connection with a handler of its own.
    /// An event on a connection reaches that connection's handler and
    /// nothing else; it is lost if the connection does not exist or the
    /// server has stopped.
    pub open spec fn advance(self, event: ServerEvent) -> Server {
        match event {
            ServerEvent::Listener(e) => Server {
                listener: listener_advance(self.listener, e),
                accepted: if listener_dispatches(self.listener, e) {
                    self.accepted + 1
                } else {
                    self.accepted
                },
                connections: if listener_dispatches(self.listener, e) {
                    self.connections.insert(self.accepted, Connection::fresh())
                } else {
                    self.connections
                },
            },
            ServerEvent::Connection(id, e) => if self.serves(id) {
                Server {
                    listener: self.listener,
                    accepted: self.accepted,
                    connections: self.connections.insert(id, self.connections[id].told(e)),
                }
            } else {
                self
            },
        }
    }

    /// The server after `trace`, event by event.
    pub open spec fn run(self, trace: Seq<ServerEvent>) -> Server
        decreases trace.len(),
    {
        if trace.len() == 0 {
            self
        } else {
            self.run(trace.drop_last()).advance(trace.last())
        }
    }

    /// The events of `trace` that reach the handler of connection `id`, in
    /// order: those addressed to it while it is being served.
    pub open spec fn reaching(self, trace: Seq<ServerEvent>, id: nat) -> Seq<Event>
        decreases trace.len(),
    {
        if trace.len() == 0 {
            Seq::empty()
        } else {
            let earlier = self.reaching(trace.drop_last(), id);
            match trace.last() {
                ServerEvent::Connection(to, e) => if to == id && self.run(
                    trace.drop_last(),
                ).serves(id) {
                    earlier.push(e)
                } else {
                    earlier
                },
                ServerEvent::Listener(_) => earlier,
            }
        }
    }
}

/// Connections exist only once accepted, whatever happens.
pub proof fn lemma_server_stays_well_formed(server: Server, trace: Seq<ServerEvent>)
    requires
        server.well_formed(),
    ensures
        server.run(trace).well_formed(),
        server.run(trace).accepted >= server.accepted,
        forall|id: nat|
            server.connections.contains_key(id) ==> #[trigger] server.run(
                trace,
            ).connections.contains_key(id),
    decreases trace.len(),
{
    if trace.len() > 0 {
        lemma_server_stays_well_formed(server, trace.drop_last());
    }
}

/// An event on one connection changes that connection and nothing else: the
/// accept loop stays as it is, no connection appears or disappears, and
/// every other connection keeps its phase and what it has delivered.
pub proof fn lemma_connection_event_is_local(server: Server, id: nat, event: Event)
    ensures
        ({
            let next = server.advance(ServerEvent::Connection(id, event));
            &&& next.listener == server.listener
            &&& next.accepted == server.accepted
            &&& next.connections.dom() == server.connections.dom()
            &&& forall|other: nat|
                other != id ==> #[trigger] next.connection(other) == server.connection(other)
        }),
{
    let next = server.advance(ServerEvent::Connection(id, event));
    assert(next.connections.dom() =~= server.connections.dom());
}

/// What a connection has gone through is decided by its own events alone.
///
/// After any trace, a connection stands exactly where its handler would
/// stand had it been told only of the events that reached it. Events on
/// other connections, their failures included, make no difference.
pub proof fn lemma_connection_sees_only_its_own_events(
    server: Server,
    trace: Seq<ServerEvent>,
    id: nat,
)
    requires
        server.well_formed(),
    ensures
        server.run(trace).connection(id) == server.connection(id).told_all(
            server.reaching(trace, id),
        ),
    decreases trace.len(),
{
    let origin = server.connection(id);
    if trace.len() == 0 {
        assert(origin.delivered + delivered(origin.phase, Seq::<Event>::empty())
            =~= origin.delivered);
    } else {
        let earlier = trace.drop_last();
        let before = server.run(earlier);
        let seen = server.reaching(earlier, id);
        lemma_connection_sees_only_its_own_events(server, earlier, id);
        lemma_server_stays_well_formed(server, earlier);
        match trace.last() {
            ServerEvent::Listener(e) => {
                assert(server.reaching(trace, id) == seen);
                if listener_dispatches(before.listener, e) && id == before.accepted {
                    assert(!before.connections.contains_key(id));
                    assert(!server.connections.contains_key(id));
                }
            },
            ServerEvent::Connection(to, e) => {
                if to == id && before.serves(id) {
                    let now = seen.push(e);
                    assert(now.drop_last() =~= seen);
                    assert(now.last() == e);
                    assert(origin.delivered + (delivered(origin.phase, seen) + delivered_by(
                        phase_after(origin.phase, seen),
                        e,
                    )) =~= (origin.delivered + delivered(origin.phase, seen)) + delivered_by(
                        phase_after(origin.phase, seen),
                        e,
                    ));
                } else {
                    assert(server.reaching(trace, id) == seen);
                }
            },
        }
    }
}

/// Isolation: a failed read or write on one connection, like any other event
/// on it, keeps no other connection from its replies, and does not stop the
/// accept loop.
///
/// Let connection `other` be served and reading, and let `event` happen on a
/// different connection `id`. Then `other` is still served and unchanged, the
/// accept loop still accepts, a peer that connects next gets a fresh handler,
/// and the next chunk that `other` receives is answered by exactly the reply.
pub proof fn lemma_failure_is_isolated(
    server: Server,
    id: nat,
    event: Event,
    other: nat,
    size: usize,
)
    requires
        server.well_formed(),
        server.serves(other),
        server.connections[other].phase is Reading,
        other != id,
        size > 0,
    ensures
        ({
            let hit = server.advance(ServerEvent::Connection(id, event));
            let later = hit.advance(ServerEvent::Listener(ListenerEvent::Accepted));
            let answered = hit.advance(
                ServerEvent::Connection(other, Event::Read(ReadOutcome::Bytes(size))),
            ).advance(ServerEvent::Connection(other, Event::Write(WriteOutcome::Done)));
            &&& hit.serves(other)
            &&& hit.connections[other] == server.connections[other]
            &&& later.serves(hit.accepted)
            &&& later.connections[hit.accepted] == Connection::fresh()
            &&& later.connections[other] == server.connections[other]
            &&& answered.serves(other)
            &&& answered.connections[other].phase is Reading
            &&& answered.connections[other].delivered == server.connections[other].delivered
                + response_payload()
        }),
{
    let hit = server.advance(ServerEvent::Connection(id, event));
    let read = hit.advance(ServerEvent::Connection(other, Event::Read(ReadOutcome::Bytes(size))));
    let answered = read.advance(ServerEvent::Connection(other, Event::Write(WriteOutcome::Done)));
    assert(hit.connections[other] == server.connections[other]);
    assert(read.connections[other].phase is Responding);
    assert(read.connections[other].delivered =~= server.connections[other].delivered);
    assert(answered.connections[other].delivered =~= server.connections[other].delivered
        + response_payload());
}

} // verus!
