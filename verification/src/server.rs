//! The server endpoint: a registry behind a life cycle
//! (`Stopped`, `Starting`, `Listening`) that admits requests only while it
//! listens and cancels what is in flight when it stops.
//!
//! The endpoint does no I/O. Its host binds the address between
//! `begin_start` and `complete_start`, hands each request that arrives to
//! `accept`, and sends what `respond` and `stop` return.

use vstd::prelude::*;
use vstd::string::*;
use crate::handler::ToolHandler;
use crate::protocol::{answer, cancelled_view, serve, Peer, PeerView, Request, RequestView,
    Response, ResponseView};
use crate::registry::{EntryView, ToolRegistry};
use crate::search::{first_true, is_first, lemma_first_absent, lemma_first_found};

verus! {

/// Where an endpoint is in its life cycle.
#[derive(Clone, Copy, Debug, PartialEq, Eq, Structural)]
pub enum ServerState {
    Stopped,
    Starting,
    Listening,
}

/// Why a start did not go through.
#[derive(Clone, Copy, Debug, PartialEq, Eq, Structural)]
pub enum ServerError {
    /// The endpoint is starting or listening already.
    AlreadyStarted,
    /// The address or the port was not available.
    Bind,
    /// The endpoint was stopped while it was starting.
    Cancelled,
}

/// The mathematical content of a [`ServerEndpoint`].
pub struct ServerView<H> {
    /// What the endpoint says of itself in the capability negotiation.
    pub identity: PeerView,
    pub state: ServerState,
    pub address: Seq<char>,
    pub port: u16,
    pub registry: Seq<EntryView<H>>,
    /// The requests in flight, oldest first, each under its ticket.
    pub pending: Seq<(u64, RequestView)>,
    /// The number of tickets handed out so far.
    pub issued: u64,
}

impl<H> ServerView<H> {
    /// What an endpoint always satisfies: requests are in flight only while
    /// it listens, and their tickets are distinct and were all handed out.
    pub open spec fn wf(self) -> bool {
        &&& self.state != ServerState::Listening ==> self.pending.len() == 0
        &&& forall|i: int| 0 <= i < self.pending.len() ==> (#[trigger] self.pending[i]).0
            < self.issued
        &&& forall|i: int, j: int|
            0 <= i < j < self.pending.len() ==> (#[trigger] self.pending[i]).0 != (
            #[trigger] self.pending[j]).0
    }
}

/// For each request in flight, whether it holds `ticket`.
pub open spec fn ticket_flags(pending: Seq<(u64, RequestView)>, ticket: u64) -> Seq<bool> {
    Seq::new(pending.len(), |i: int| pending[i].0 == ticket)
}

/// The position of the request in flight that holds `ticket`.
pub open spec fn ticket_index(pending: Seq<(u64, RequestView)>, ticket: u64) -> Option<int> {
    first_true(ticket_flags(pending, ticket))
}

/// The answer that `stop` gives to each request in flight.
pub open spec fn cancellations(pending: Seq<(u64, RequestView)>) -> Seq<(u64, ResponseView)> {
    Seq::new(pending.len(), |i: int| (pending[i].0, cancelled_view()))
}

/// The views of a run of requests in flight.
pub open spec fn pending_views(pending: Seq<(u64, Request)>) -> Seq<(u64, RequestView)> {
    Seq::new(pending.len(), |i: int| (pending[i].0, pending[i].1@))
}

/// The views of a run of answers.
pub open spec fn answer_views(answers: Seq<(u64, Response)>) -> Seq<(u64, ResponseView)> {
    Seq::new(answers.len(), |i: int| (answers[i].0, answers[i].1@))
}

/// A server endpoint.
pub struct ServerEndpoint<H> {
    identity: Peer,
    state: ServerState,
    address: String,
    port: u16,
    registry: ToolRegistry<H>,
    pending: Vec<(u64, Request)>,
    issued: u64,
}

impl<H> View for ServerEndpoint<H> {
    type V = ServerView<H>;

    closed spec fn view(&self) -> ServerView<H> {
        ServerView {
            identity: self.identity@,
            state: self.state,
            address: self.address@,
            port: self.port,
            registry: self.registry@,
            pending: pending_views(self.pending@),
            issued: self.issued,
        }
    }
}

impl<H> ServerEndpoint<H> {
    #[verifier::type_invariant]
    spec fn inv(self) -> bool {
        self@.wf()
    }

    /// A stopped endpoint with nothing registered.
    pub fn new(identity: Peer) -> (s: ServerEndpoint<H>)
        ensures
            s@ == (ServerView {
                identity: identity@,
                state: ServerState::Stopped,
                address: Seq::<char>::empty(),
                port: 0,
                registry: Seq::<EntryView<H>>::empty(),
                pending: Seq::<(u64, RequestView)>::empty(),
                issued: 0,
            }),
            s@.wf(),
    {
        let s = ServerEndpoint {
            identity,
            state: ServerState::Stopped,
            address: String::new(),
            port: 0,
            registry: ToolRegistry::new(),
            pending: Vec::new(),
            issued: 0,
        };
        assert(s@.pending =~= Seq::empty());
        s
    }

    /// Where the endpoint is in its life cycle.
    pub fn state(&self) -> (s: ServerState)
        ensures
            s == self@.state,
            self@.wf(),
    {
        proof {
            use_type_invariant(self);
        }
        self.state
    }

    /// The endpoint's half of the capability negotiation: a listening
    /// endpoint answers a client's greeting with what it says of itself. It
    /// keeps nothing of the client.
    pub fn greet(&self, client: &Peer) -> (r: Option<Peer>)
        ensures
            match r {
                Some(own) => self@.state == ServerState::Listening && own@ == self@.identity,
                None => self@.state != ServerState::Listening,
            },
    {
        match self.state {
            ServerState::Listening => Some(self.identity.clone()),
            _ => None,
        }
    }

    /// The registry that the endpoint offers.
    pub fn registry(&self) -> (r: &ToolRegistry<H>)
        ensures
            r@ == self@.registry,
    {
        &self.registry
    }

    /// The number of requests in flight.
    pub fn in_flight(&self) -> (n: usize)
        ensures
            n == self@.pending.len(),
    {
        self.pending.len()
    }

    /// The first half of a start: a stopped endpoint takes the address, the
    /// port and the registry and is `Starting`; its host now binds. An
    /// endpoint that is starting or listening refuses and stays as it is.
    pub fn begin_start(&mut self, address: &str, port: u16, registry: ToolRegistry<H>) -> (r:
        Result<(), ServerError>)
        ensures
            final(self)@.wf(),
            match r {
                Ok(_) => old(self)@.state == ServerState::Stopped && final(self)@ == (ServerView {
                    state: ServerState::Starting,
                    address: address@,
                    port,
                    registry: registry@,
                    ..old(self)@
                }),
                Err(e) => old(self)@.state != ServerState::Stopped && e
                    == ServerError::AlreadyStarted && final(self)@ == old(self)@,
            },
    {
        proof {
            use_type_invariant(&*self);
        }
        match self.state {
            ServerState::Stopped => {
                self.address = String::from_str(address);
                self.port = port;
                self.registry = registry;
                self.state = ServerState::Starting;
                Ok(())
            },
            _ => Err(ServerError::AlreadyStarted),
        }
    }

    /// The second half of a start, with the outcome of the bind. A starting
    /// endpoint listens if the bind succeeded and is stopped again if not.
    /// An endpoint that was stopped in between learns that its start was
    /// cancelled; one that listens already refuses.
    pub fn complete_start(&mut self, bound: bool) -> (r: Result<(), ServerError>)
        ensures
            final(self)@.wf(),
            final(self)@ == (ServerView {
                state: match old(self)@.state {
                    ServerState::Starting => if bound {
                        ServerState::Listening
                    } else {
                        ServerState::Stopped
                    },
                    other => other,
                },
                ..old(self)@
            }),
            r == match old(self)@.state {
                ServerState::Starting => if bound {
                    Ok::<(), ServerError>(())
                } else {
                    Err::<(), ServerError>(ServerError::Bind)
                },
                ServerState::Listening => Err::<(), ServerError>(ServerError::AlreadyStarted),
                ServerState::Stopped => Err::<(), ServerError>(ServerError::Cancelled),
            },
    {
        proof {
            use_type_invariant(&*self);
        }
        match self.state {
            ServerState::Starting => {
                if bound {
                    self.state = ServerState::Listening;
                    Ok(())
                } else {
                    self.state = ServerState::Stopped;
                    Err(ServerError::Bind)
                }
            },
            ServerState::Listening => Err(ServerError::AlreadyStarted),
            ServerState::Stopped => Err(ServerError::Cancelled),
        }
    }

    /// Admits a request: a listening endpoint with a ticket left puts the
    /// request in flight under the next ticket. Any other endpoint does not
    /// accept it and stays as it is.
    pub fn accept(&mut self, request: Request) -> (r: Option<u64>)
        ensures
            final(self)@.wf(),
            match r {
                Some(ticket) => old(self)@.state == ServerState::Listening && old(self)@.issued
                    < u64::MAX && ticket == old(self)@.issued && final(self)@ == (ServerView {
                    pending: old(self)@.pending.push((ticket, request@)),
                    issued: (ticket + 1) as u64,
                    ..old(self)@
                }),
                None => !(old(self)@.state == ServerState::Listening && old(self)@.issued
                    < u64::MAX) && final(self)@ == old(self)@,
            },
    {
        proof {
            use_type_invariant(&*self);
        }
        if self.state != ServerState::Listening || self.issued == u64::MAX {
            return None;
        }
        let ghost before = self@;
        let ticket = self.issued;
        let mut pending: Vec<(u64, Request)> = Vec::new();
        core::mem::swap(&mut self.pending, &mut pending);
        assert(pending_views(self.pending@) =~= Seq::empty());
        self.issued = ticket + 1;
        pending.push((ticket, request));
        assert(pending_views(pending@) =~= before.pending.push((ticket, request@)));
        self.pending = pending;
        Some(ticket)
    }

    /// The position of the request in flight that holds `ticket`.
    fn position(&self, ticket: u64) -> (r: Option<usize>)
        ensures
            match r {
                Some(i) => ticket_index(self@.pending, ticket) == Some(i as int) && i
                    < self@.pending.len(),
                None => ticket_index(self@.pending, ticket) is None,
            },
    {
        let ghost flags = ticket_flags(self@.pending, ticket);
        let mut i: usize = 0;
        while i < self.pending.len()
            invariant
                i <= self.pending@.len(),
                flags == ticket_flags(self@.pending, ticket),
                forall|j: int| 0 <= j < i ==> !flags[j],
            decreases self.pending@.len() - i,
        {
            if self.pending[i].0 == ticket {
                proof {
                    assert(is_first(flags, i as int));
                    lemma_first_found(flags, i as int);
                }
                return Some(i);
            }
            i += 1;
        }
        proof {
            lemma_first_absent(flags);
        }
        None
    }

    /// Stops the endpoint. Every request in flight is answered as cancelled,
    /// oldest first, and nothing is in flight afterwards; no request is
    /// accepted until the endpoint listens again.
    pub fn stop(&mut self) -> (r: Vec<(u64, Response)>)
        ensures
            final(self)@.wf(),
            final(self)@ == (ServerView {
                state: ServerState::Stopped,
                pending: Seq::<(u64, RequestView)>::empty(),
                ..old(self)@
            }),
            answer_views(r@) == cancellations(old(self)@.pending),
    {
        proof {
            use_type_invariant(&*self);
        }
        let ghost before = self@;
        let mut pending: Vec<(u64, Request)> = Vec::new();
        core::mem::swap(&mut self.pending, &mut pending);
        assert(pending_views(self.pending@) =~= Seq::empty());
        self.state = ServerState::Stopped;
        let mut out: Vec<(u64, Response)> = Vec::new();
        let mut i: usize = 0;
        while i < pending.len()
            invariant
                i <= pending@.len(),
                out@.len() == i,
                pending_views(pending@) == before.pending,
                forall|j: int|
                    0 <= j < i ==> out@[j].0 == pending@[j].0 && out@[j].1@ == cancelled_view(),
            decreases pending@.len() - i,
        {
            out.push((pending[i].0, Response::cancelled()));
            i += 1;
        }
        assert(answer_views(out@) =~= cancellations(before.pending));
        out
    }
}

impl<H: ToolHandler> ServerEndpoint<H> {
    /// Answers the request in flight under `ticket` and takes it out of
    /// flight. A ticket that is not in flight (never handed out, answered
    /// already, or cancelled by `stop`) gets no answer.
    pub fn respond(&mut self, ticket: u64) -> (r: Option<Response>)
        ensures
            final(self)@.wf(),
            match r {
                Some(response) => ticket_index(old(self)@.pending, ticket) is Some && response@
                    == answer(
                    old(self)@.registry,
                    old(self)@.pending[ticket_index(old(self)@.pending, ticket)->Some_0].1,
                ) && final(self)@ == (ServerView {
                    pending: old(self)@.pending.remove(
                        ticket_index(old(self)@.pending, ticket)->Some_0,
                    ),
                    ..old(self)@
                }),
                None => ticket_index(old(self)@.pending, ticket) is None && final(self)@ == old(
                    self,
                )@,
            },
    {
        proof {
            use_type_invariant(&*self);
        }
        let ghost before = self@;
        match self.position(ticket) {
            None => None,
            Some(i) => {
                let mut pending: Vec<(u64, Request)> = Vec::new();
                core::mem::swap(&mut self.pending, &mut pending);
                assert(pending_views(self.pending@) =~= Seq::empty());
                let taken = pending.remove(i);
                assert(pending_views(pending@) =~= before.pending.remove(i as int));
                assert(taken.1@ == before.pending[i as int].1);
                self.pending = pending;
                Some(serve(&self.registry, &taken.1))
            },
        }
    }

    /// Answers a request at once, without putting it in flight. An endpoint
    /// that does not listen gives no answer. The endpoint stays as it is.
    pub fn handle(&self, request: &Request) -> (r: Option<Response>)
        ensures
            match r {
                Some(response) => self@.state == ServerState::Listening && response@ == answer(
                    self@.registry,
                    request@,
                ),
                None => self@.state != ServerState::Listening,
            },
    {
        match self.state {
            ServerState::Listening => Some(serve(&self.registry, request)),
            _ => None,
        }
    }
}

} // verus!
