use vstd::prelude::*;
use crate::routing::{backend_view, route_of, RoutingTable};
use crate::sni::{ok_of, opt_text, parse_sni, sni_outcome, SniError};

verus! {

/// One direction of the relay.
#[derive(Clone, Copy, Debug, PartialEq, Eq, Structural)]
pub enum Direction {
    ClientToBackend,
    BackendToClient,
}

/// Where a connection stands in its handling.
#[derive(Clone, Copy, Debug, PartialEq, Eq, Structural)]
pub enum Phase {
    /// Waiting for the first bytes of the client's stream.
    Inspecting,
    /// A backend was chosen and is being connected to.
    Connecting,
    /// Bytes flow between client and backend.
    Relaying,
    /// The connection is over; nothing more is done for it.
    Closed,
}

/// What the caller is to do next for a connection.
#[derive(Clone, Debug, PartialEq, Eq)]
pub enum Action {
    /// Open a connection to this backend address.
    Connect(String),
    /// Start copying bytes in both directions.
    Relay,
    /// Close every socket of the connection.
    Close,
    /// Nothing: the event does not apply in the current phase.
    Ignore,
}

pub open spec fn action_view(a: Action) -> ActionView {
    match a {
        Action::Connect(b) => ActionView::Connect(b@),
        Action::Relay => ActionView::Relay,
        Action::Close => ActionView::Close,
        Action::Ignore => ActionView::Ignore,
    }
}

pub enum ActionView {
    Connect(Seq<char>),
    Relay,
    Close,
    Ignore,
}

/// The model of a connection's record.
pub struct ConnectionView {
    pub id: Seq<char>,
    pub source: Seq<char>,
    pub phase: Phase,
    pub hostname: Option<Seq<char>>,
    pub sni_error: Option<SniError>,
    pub backend: Option<Seq<char>>,
    pub first_done: Option<Direction>,
}

/// The record of one accepted connection: its correlation identifier and
/// source address, what was read from its ClientHello, the backend it was
/// routed to, and which relay direction finished first. It also decides each
/// step of the connection's handling from the outcome of the last one.
pub struct Connection {
    id: String,
    source: String,
    phase: Phase,
    hostname: Option<String>,
    sni_error: Option<SniError>,
    backend: Option<String>,
    first_done: Option<Direction>,
}

impl View for Connection {
    type V = ConnectionView;

    closed spec fn view(&self) -> ConnectionView {
        ConnectionView {
            id: self.id@,
            source: self.source@,
            phase: self.phase,
            hostname: opt_text(self.hostname),
            sni_error: self.sni_error,
            backend: backend_view(self.backend),
            first_done: self.first_done,
        }
    }
}

impl ConnectionView {
    /// A backend is known from the moment one is connected to, and only a
    /// closed connection has a finished relay direction.
    pub open spec fn wf(self) -> bool {
        &&& (self.phase is Connecting || self.phase is Relaying) ==> self.backend is Some
            && self.hostname is Some
        &&& self.first_done is Some ==> self.phase is Closed
    }
}

impl Connection {
    /// The record of a connection just accepted from `source`.
    pub fn new(id: String, source: String) -> (r: Connection)
        ensures
            r@ == (ConnectionView {
                id: id@,
                source: source@,
                phase: Phase::Inspecting,
                hostname: None,
                sni_error: None,
                backend: None,
                first_done: None,
            }),
            r@.wf(),
    {
        Connection {
            id,
            source,
            phase: Phase::Inspecting,
            hostname: None,
            sni_error: None,
            backend: None,
            first_done: None,
        }
    }

    /// The correlation identifier given when the connection was accepted.
    pub fn id(&self) -> (r: &str)
        ensures
            r@ == self@.id,
    {
        self.id.as_str()
    }

    /// The client's source address.
    pub fn source(&self) -> (r: &str)
        ensures
            r@ == self@.source,
    {
        self.source.as_str()
    }

    pub fn phase(&self) -> (r: Phase)
        ensures
            r == self@.phase,
    {
        self.phase
    }

    /// The hostname read from the ClientHello, once one was read.
    pub fn hostname(&self) -> (r: Option<String>)
        ensures
            opt_text(r) == self@.hostname,
    {
        self.hostname.clone()
    }

    /// Why no hostname could be read, once that is known.
    pub fn sni_error(&self) -> (r: Option<SniError>)
        ensures
            r == self@.sni_error,
    {
        self.sni_error
    }

    /// The backend the connection was routed to, once it was.
    pub fn backend(&self) -> (r: Option<String>)
        ensures
            backend_view(r) == self@.backend,
    {
        self.backend.clone()
    }

    /// The relay direction that finished first, once one did.
    pub fn first_done(&self) -> (r: Option<Direction>)
        ensures
            r == self@.first_done,
    {
        self.first_done
    }

    /// Decides from the first bytes of the client's stream, read without
    /// consuming them: connect to the backend that the presented hostname
    /// routes to, or close the connection when no hostname can be read or it
    /// has no route.
    pub fn on_peek(&mut self, table: &RoutingTable, peeked: &[u8]) -> (a: Action)
        requires
            old(self)@.wf(),
        ensures
            final(self)@.wf(),
            final(self)@.id == old(self)@.id,
            final(self)@.source == old(self)@.source,
            old(self)@.phase is Inspecting ==> ({
                let host = ok_of(sni_outcome(peeked@));
                let route = route_of(table@, host);
                &&& final(self)@.hostname == host
                &&& final(self)@.sni_error == (match sni_outcome(peeked@) {
                    Ok(_) => None,
                    Err(e) => Some(e),
                })
                &&& final(self)@.backend == route
                &&& final(self)@.first_done is None
                &&& match route {
                    Some(b) => final(self)@.phase is Connecting && action_view(a)
                        == ActionView::Connect(b),
                    None => final(self)@.phase is Closed && a is Close,
                }
            }),
            !(old(self)@.phase is Inspecting) ==> final(self)@ == old(self)@ && a is Ignore,
    {
        if self.phase != Phase::Inspecting {
            return Action::Ignore;
        }
        let outcome = parse_sni(peeked);
        match outcome {
            Ok(h) => {
                let route = table.resolve(Some(h.as_str()));
                self.hostname = Some(h);
                self.sni_error = None;
                match route {
                    Some(b) => {
                        self.backend = Some(b.clone());
                        self.phase = Phase::Connecting;
                        Action::Connect(b)
                    },
                    None => {
                        self.backend = None;
                        self.phase = Phase::Closed;
                        Action::Close
                    },
                }
            },
            Err(e) => {
                self.hostname = None;
                self.sni_error = Some(e);
                self.backend = None;
                self.phase = Phase::Closed;
                Action::Close
            },
        }
    }

    /// Decides from the outcome of the backend connection: relay when it was
    /// established, close the client's connection when it failed.
    pub fn on_connect(&mut self, established: bool) -> (a: Action)
        requires
            old(self)@.wf(),
        ensures
            final(self)@.wf(),
            old(self)@.phase is Connecting ==> final(self)@ == (ConnectionView {
                phase: if established {
                    Phase::Relaying
                } else {
                    Phase::Closed
                },
                ..old(self)@
            }) && (if established {
                a is Relay
            } else {
                a is Close
            }),
            !(old(self)@.phase is Connecting) ==> final(self)@ == old(self)@ && a is Ignore,
    {
        if self.phase != Phase::Connecting {
            return Action::Ignore;
        }
        if established {
            self.phase = Phase::Relaying;
            Action::Relay
        } else {
            self.phase = Phase::Closed;
            Action::Close
        }
    }

    /// Decides when one relay direction has finished: the whole connection
    /// closes, both directions, and the direction that finished first is
    /// kept. A direction finishing later changes nothing.
    pub fn on_relay_done(&mut self, direction: Direction) -> (a: Action)
        requires
            old(self)@.wf(),
        ensures
            final(self)@.wf(),
            old(self)@.phase is Relaying ==> final(self)@ == (ConnectionView {
                phase: Phase::Closed,
                first_done: Some(direction),
                ..old(self)@
            }) && a is Close,
            !(old(self)@.phase is Relaying) ==> final(self)@ == old(self)@ && a is Ignore,
    {
        if self.phase != Phase::Relaying {
            return Action::Ignore;
        }
        self.phase = Phase::Closed;
        self.first_done = Some(direction);
        Action::Close
    }
}

} // verus!
