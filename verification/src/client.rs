//! The client handle: the session state of one connection
//! (`Unopened`, `Open`, `Closed`) and the rules for what may be sent in which
//! state.
//!
//! The handle does no I/O. For each operation its host asks the handle for
//! the message to send (`begin_..`), sends it, and gives the handle what came
//! back (`complete_..`).

use vstd::prelude::*;
use vstd::string::*;
use crate::arguments::Arguments;
use crate::content::{ContentView, ToolResult};
use crate::descriptor::{descriptor_views, DescriptorView, ToolDescriptor};
use crate::protocol::{Capabilities, ErrorCode, Peer, PeerView, Request, RequestView, Response,
    ResponseView};

verus! {

/// Where a handle is in its life cycle.
#[derive(Clone, Copy, Debug, PartialEq, Eq, Structural)]
pub enum ClientState {
    Unopened,
    Open,
    Closed,
}

/// Why a client operation failed.
#[derive(Debug, PartialEq, Eq)]
pub enum ClientError {
    /// The server could not be reached.
    Connection,
    /// The operation needs an open, initialized handle.
    NotInitialized,
    /// The handle is open already.
    AlreadyOpen,
    /// The handle is closed.
    Closed,
    /// The handle was closed while the request was in flight.
    Cancelled,
    /// The server answered with a failure.
    Server { code: ErrorCode, message: String },
}

/// The mathematical content of a [`ClientError`].
pub enum ClientErrorView {
    Connection,
    NotInitialized,
    AlreadyOpen,
    Closed,
    Cancelled,
    Server { code: ErrorCode, message: Seq<char> },
}

impl View for ClientError {
    type V = ClientErrorView;

    open spec fn view(&self) -> ClientErrorView {
        match *self {
            ClientError::Connection => ClientErrorView::Connection,
            ClientError::NotInitialized => ClientErrorView::NotInitialized,
            ClientError::AlreadyOpen => ClientErrorView::AlreadyOpen,
            ClientError::Closed => ClientErrorView::Closed,
            ClientError::Cancelled => ClientErrorView::Cancelled,
            ClientError::Server { code, message } => ClientErrorView::Server {
                code,
                message: message@,
            },
        }
    }
}

/// The words for a failure code.
pub open spec fn code_words(code: ErrorCode) -> Seq<char> {
    match code {
        ErrorCode::NotFound => "not found"@,
        ErrorCode::InvalidArgument => "invalid argument"@,
        ErrorCode::HandlerError => "handler error"@,
        ErrorCode::Internal => "internal error"@,
        ErrorCode::Cancelled => "cancelled"@,
    }
}

/// The words for a client failure.
pub open spec fn error_words(e: ClientErrorView) -> Seq<char> {
    match e {
        ClientErrorView::Connection => "the server could not be reached"@,
        ClientErrorView::NotInitialized => "the client is not initialized"@,
        ClientErrorView::AlreadyOpen => "the client is open already"@,
        ClientErrorView::Closed => "the client is closed"@,
        ClientErrorView::Cancelled => "the request was cancelled"@,
        ClientErrorView::Server { code, message } => code_words(code) + ": "@ + message,
    }
}

impl ClientError {
    /// The words for this failure.
    pub fn message(&self) -> (s: String)
        ensures
            s@ == error_words(self@),
    {
        match self {
            ClientError::Connection => String::from_str("the server could not be reached"),
            ClientError::NotInitialized => String::from_str("the client is not initialized"),
            ClientError::AlreadyOpen => String::from_str("the client is open already"),
            ClientError::Closed => String::from_str("the client is closed"),
            ClientError::Cancelled => String::from_str("the request was cancelled"),
            ClientError::Server { code, message } => {
                let mut s = String::from_str(
                    match code {
                        ErrorCode::NotFound => "not found",
                        ErrorCode::InvalidArgument => "invalid argument",
                        ErrorCode::HandlerError => "handler error",
                        ErrorCode::Internal => "internal error",
                        ErrorCode::Cancelled => "cancelled",
                    },
                );
                s.append(": ");
                s.append(message.as_str());
                s
            },
        }
    }
}

/// The mathematical content of a [`ClientHandle`].
pub struct ClientView {
    pub state: ClientState,
    /// The server's capabilities, once they are negotiated.
    pub negotiated: Option<Capabilities>,
}

impl ClientView {
    /// What a handle always satisfies: nothing is negotiated before it is
    /// opened.
    pub open spec fn wf(self) -> bool {
        self.state == ClientState::Unopened ==> self.negotiated is None
    }

    /// Why the handle may not start a negotiation now; `None` when it may.
    pub open spec fn initialize_gate(self) -> Option<ClientErrorView> {
        match self.state {
            ClientState::Closed => Some(ClientErrorView::Closed),
            ClientState::Unopened => Some(ClientErrorView::NotInitialized),
            ClientState::Open => None,
        }
    }

    /// Why the handle may not list or invoke now; `None` when it may.
    pub open spec fn request_gate(self) -> Option<ClientErrorView> {
        match self.state {
            ClientState::Closed => Some(ClientErrorView::Closed),
            ClientState::Unopened => Some(ClientErrorView::NotInitialized),
            ClientState::Open => if self.negotiated is Some {
                None
            } else {
                Some(ClientErrorView::NotInitialized)
            },
        }
    }

    /// Why an answer that arrives now is not looked at; `None` when it is.
    /// An answer that finds the handle closed belonged to a request that the
    /// close cancelled.
    pub open spec fn answer_gate(self, needs_negotiation: bool) -> Option<ClientErrorView> {
        match self.state {
            ClientState::Closed => Some(ClientErrorView::Cancelled),
            ClientState::Unopened => Some(ClientErrorView::NotInitialized),
            ClientState::Open => if needs_negotiation && self.negotiated is None {
                Some(ClientErrorView::NotInitialized)
            } else {
                None
            },
        }
    }
}

/// The descriptors among `tools` whose name starts with `prefix`, in order.
pub open spec fn with_prefix(tools: Seq<DescriptorView>, prefix: Seq<char>) -> Seq<DescriptorView>
    decreases tools.len(),
{
    if tools.len() == 0 {
        Seq::empty()
    } else if prefix.is_prefix_of(tools.last().name) {
        with_prefix(tools.drop_last(), prefix).push(tools.last())
    } else {
        with_prefix(tools.drop_last(), prefix)
    }
}

/// The listing that a filter lets through: all of it without a filter.
pub open spec fn filtered(tools: Seq<DescriptorView>, filter: Option<Seq<char>>) -> Seq<
    DescriptorView,
> {
    match filter {
        Some(prefix) => with_prefix(tools, prefix),
        None => tools,
    }
}

/// What a listing makes of the server's answer.
pub open spec fn listing_of(response: ResponseView, filter: Option<Seq<char>>) -> Result<
    Seq<DescriptorView>,
    ClientErrorView,
> {
    match response {
        ResponseView::Tools(tools) => Ok(filtered(tools, filter)),
        ResponseView::Error { code, message } => Err(ClientErrorView::Server { code, message }),
        ResponseView::Content(_) => Err(
            ClientErrorView::Server {
                code: ErrorCode::Internal,
                message: "unexpected answer to a listing"@,
            },
        ),
    }
}

/// What an invocation makes of the server's answer.
pub open spec fn result_of(response: ResponseView) -> Result<Seq<ContentView>, ClientErrorView> {
    match response {
        ResponseView::Content(content) => Ok(content),
        ResponseView::Error { code, message } => Err(ClientErrorView::Server { code, message }),
        ResponseView::Tools(_) => Err(
            ClientErrorView::Server {
                code: ErrorCode::Internal,
                message: "unexpected answer to an invocation"@,
            },
        ),
    }
}

/// The view of an optional prefix.
pub open spec fn filter_view(filter: Option<&str>) -> Option<Seq<char>> {
    match filter {
        Some(prefix) => Some(prefix@),
        None => None,
    }
}

/// Whether `name` starts with `prefix`.
pub fn starts_with(name: &str, prefix: &str) -> (b: bool)
    ensures
        b == prefix@.is_prefix_of(name@),
{
    let n = name.unicode_len();
    let m = prefix.unicode_len();
    if m > n {
        return false;
    }
    let mut i: usize = 0;
    while i < m
        invariant
            i <= m <= n,
            n == name@.len(),
            m == prefix@.len(),
            forall|j: int| 0 <= j < i ==> name@[j] == prefix@[j],
        decreases m - i,
    {
        if name.get_char(i) != prefix.get_char(i) {
            assert(name@.subrange(0, m as int)[i as int] != prefix@[i as int]);
            return false;
        }
        i += 1;
    }
    assert(prefix@ =~= name@.subrange(0, m as int));
    true
}

/// The descriptors among `tools` that `filter` lets through, in order.
pub fn select(tools: Vec<ToolDescriptor>, filter: Option<&str>) -> (r: Vec<ToolDescriptor>)
    ensures
        descriptor_views(r@) == filtered(descriptor_views(tools@), filter_view(filter)),
{
    match filter {
        None => tools,
        Some(prefix) => {
            let ghost all = descriptor_views(tools@);
            let mut out: Vec<ToolDescriptor> = Vec::new();
            let mut i: usize = 0;
            assert(all.take(0) =~= Seq::empty());
            assert(descriptor_views(out@) =~= Seq::empty());
            while i < tools.len()
                invariant
                    i <= tools@.len(),
                    all == descriptor_views(tools@),
                    descriptor_views(out@) == with_prefix(all.take(i as int), prefix@),
                decreases tools@.len() - i,
            {
                let ghost kept = descriptor_views(out@);
                proof {
                    let next = all.take(i + 1);
                    assert(next.drop_last() =~= all.take(i as int));
                    assert(next.last() == tools@[i as int]@);
                }
                if starts_with(tools[i].name(), prefix) {
                    out.push(tools[i].clone());
                    assert(descriptor_views(out@) =~= kept.push(tools@[i as int]@));
                }
                i += 1;
            }
            assert(all.take(tools@.len() as int) =~= all);
            out
        },
    }
}

/// The session state of one client connection.
#[derive(Debug, PartialEq, Eq)]
pub struct ClientHandle {
    state: ClientState,
    negotiated: Option<Capabilities>,
}

impl View for ClientHandle {
    type V = ClientView;

    closed spec fn view(&self) -> ClientView {
        ClientView { state: self.state, negotiated: self.negotiated }
    }
}

/// The mathematical content of a client-side result.
pub open spec fn listing_view(r: Result<Vec<ToolDescriptor>, ClientError>) -> Result<
    Seq<DescriptorView>,
    ClientErrorView,
> {
    match r {
        Ok(tools) => Ok(descriptor_views(tools@)),
        Err(e) => Err(e@),
    }
}

/// The mathematical content of a client-side result.
pub open spec fn invocation_view(r: Result<ToolResult, ClientError>) -> Result<
    Seq<ContentView>,
    ClientErrorView,
> {
    match r {
        Ok(result) => Ok(result@),
        Err(e) => Err(e@),
    }
}

/// The mathematical content of a message to send, or of the refusal to send
/// one.
pub open spec fn request_view(r: Result<Request, ClientError>) -> Result<
    RequestView,
    ClientErrorView,
> {
    match r {
        Ok(request) => Ok(request@),
        Err(e) => Err(e@),
    }
}

impl ClientHandle {
    #[verifier::type_invariant]
    spec fn inv(self) -> bool {
        self@.wf()
    }

    /// An unopened handle.
    pub fn new() -> (c: ClientHandle)
        ensures
            c@ == (ClientView { state: ClientState::Unopened, negotiated: None }),
    {
        ClientHandle { state: ClientState::Unopened, negotiated: None }
    }

    /// Where the handle is in its life cycle.
    pub fn state(&self) -> (s: ClientState)
        ensures
            s == self@.state,
            self@.wf(),
    {
        proof {
            use_type_invariant(self);
        }
        self.state
    }

    /// The server's capabilities, once they are negotiated.
    pub fn negotiated(&self) -> (c: Option<Capabilities>)
        ensures
            c == self@.negotiated,
    {
        self.negotiated
    }

    /// The error for a gate that is shut.
    fn refusal(&self, needs_negotiation: bool) -> (r: Option<ClientError>)
        ensures
            needs_negotiation ==> option_error_view(r) == self@.request_gate(),
            !needs_negotiation ==> option_error_view(r) == self@.initialize_gate(),
    {
        match self.state {
            ClientState::Closed => Some(ClientError::Closed),
            ClientState::Unopened => Some(ClientError::NotInitialized),
            ClientState::Open => if needs_negotiation && self.negotiated.is_none() {
                Some(ClientError::NotInitialized)
            } else {
                None
            },
        }
    }

    /// The error for an answer that is not looked at.
    fn dismissal(&self, needs_negotiation: bool) -> (r: Option<ClientError>)
        ensures
            option_error_view(r) == self@.answer_gate(needs_negotiation),
    {
        match self.state {
            ClientState::Closed => Some(ClientError::Cancelled),
            ClientState::Unopened => Some(ClientError::NotInitialized),
            ClientState::Open => if needs_negotiation && self.negotiated.is_none() {
                Some(ClientError::NotInitialized)
            } else {
                None
            },
        }
    }

    /// Opens the handle, given whether its host reached the server. An
    /// unopened handle opens if the server was reached and fails with
    /// `Connection` if not; an open one fails with `AlreadyOpen`, a closed
    /// one with `Closed`. A handle that fails stays as it is.
    pub fn open(&mut self, reachable: bool) -> (r: Result<(), ClientError>)
        ensures
            final(self)@.wf(),
            r is Ok <==> old(self)@.state == ClientState::Unopened && reachable,
            r is Ok ==> final(self)@ == (ClientView { state: ClientState::Open, ..old(self)@ }),
            r matches Err(e) ==> final(self)@ == old(self)@ && e@ == match old(self)@.state {
                ClientState::Unopened => ClientErrorView::Connection,
                ClientState::Open => ClientErrorView::AlreadyOpen,
                ClientState::Closed => ClientErrorView::Closed,
            },
    {
        proof {
            use_type_invariant(&*self);
        }
        match self.state {
            ClientState::Unopened => {
                if reachable {
                    self.state = ClientState::Open;
                    Ok(())
                } else {
                    Err(ClientError::Connection)
                }
            },
            ClientState::Open => Err(ClientError::AlreadyOpen),
            ClientState::Closed => Err(ClientError::Closed),
        }
    }

    /// The first half of the negotiation: what the client says of itself, to
    /// be sent to the server. Only an open handle negotiates.
    pub fn begin_initialize(&self, name: &str, version: &str, capabilities: Capabilities) -> (r:
        Result<Peer, ClientError>)
        ensures
            match r {
                Ok(hello) => self@.initialize_gate() is None && hello@ == (PeerView {
                    name: name@,
                    version: version@,
                    capabilities,
                }),
                Err(e) => self@.initialize_gate() == Some(e@),
            },
    {
        match self.refusal(false) {
            Some(e) => Err(e),
            None => Ok(Peer::new(name, version, capabilities)),
        }
    }

    /// The second half of the negotiation: records what the server says of
    /// itself and returns the server's capabilities.
    pub fn complete_initialize(&mut self, server: &Peer) -> (r: Result<Capabilities, ClientError>)
        ensures
            final(self)@.wf(),
            match r {
                Ok(c) => old(self)@.answer_gate(false) is None && c == server@.capabilities
                    && final(self)@ == (ClientView { negotiated: Some(c), ..old(self)@ }),
                Err(e) => old(self)@.answer_gate(false) == Some(e@) && final(self)@ == old(self)@,
            },
    {
        proof {
            use_type_invariant(&*self);
        }
        match self.dismissal(false) {
            Some(e) => Err(e),
            None => {
                self.negotiated = Some(server.capabilities);
                Ok(server.capabilities)
            },
        }
    }

    /// The first half of a listing: the request to send. Only an open,
    /// initialized handle sends one.
    pub fn begin_list(&self) -> (r: Result<Request, ClientError>)
        ensures
            request_view(r) == match self@.request_gate() {
                Some(e) => Err::<RequestView, ClientErrorView>(e),
                None => Ok::<RequestView, ClientErrorView>(RequestView::Discovery),
            },
    {
        match self.refusal(true) {
            Some(e) => Err(e),
            None => Ok(Request::Discovery),
        }
    }

    /// The second half of a listing: the descriptors in the server's answer,
    /// in the server's order, restricted to the names that start with
    /// `filter` if there is one.
    pub fn complete_list(&self, response: Response, filter: Option<&str>) -> (r: Result<
        Vec<ToolDescriptor>,
        ClientError,
    >)
        ensures
            listing_view(r) == match self@.answer_gate(true) {
                Some(e) => Err::<Seq<DescriptorView>, ClientErrorView>(e),
                None => listing_of(response@, filter_view(filter)),
            },
    {
        match self.dismissal(true) {
            Some(e) => Err(e),
            None => match response {
                Response::Tools(tools) => Ok(select(tools, filter)),
                Response::Error { code, message } => Err(ClientError::Server { code, message }),
                Response::Content(_) => Err(
                    ClientError::Server {
                        code: ErrorCode::Internal,
                        message: String::from_str("unexpected answer to a listing"),
                    },
                ),
            },
        }
    }

    /// The first half of an invocation: the request to send. Only an open,
    /// initialized handle sends one.
    pub fn begin_invoke(&self, name: &str, arguments: Arguments) -> (r: Result<
        Request,
        ClientError,
    >)
        ensures
            request_view(r) == match self@.request_gate() {
                Some(e) => Err::<RequestView, ClientErrorView>(e),
                None => Ok::<RequestView, ClientErrorView>(
                    RequestView::Invocation { name: name@, arguments: arguments@ },
                ),
            },
    {
        match self.refusal(true) {
            Some(e) => Err(e),
            None => Ok(Request::Invocation { name: String::from_str(name), arguments }),
        }
    }

    /// The second half of an invocation: the result in the server's answer,
    /// or the server's failure with its code.
    pub fn complete_invoke(&self, response: Response) -> (r: Result<ToolResult, ClientError>)
        ensures
            invocation_view(r) == match self@.answer_gate(true) {
                Some(e) => Err::<Seq<ContentView>, ClientErrorView>(e),
                None => result_of(response@),
            },
    {
        match self.dismissal(true) {
            Some(e) => Err(e),
            None => match response {
                Response::Content(result) => Ok(result),
                Response::Error { code, message } => Err(ClientError::Server { code, message }),
                Response::Tools(_) => Err(
                    ClientError::Server {
                        code: ErrorCode::Internal,
                        message: String::from_str("unexpected answer to an invocation"),
                    },
                ),
            },
        }
    }

    /// Closes the handle. Every later operation fails with `Closed`, and
    /// every answer that still arrives is dismissed as `Cancelled`. Closing
    /// a closed handle fails with `Closed` too.
    pub fn close(&mut self) -> (r: Result<(), ClientError>)
        ensures
            final(self)@.wf(),
            final(self)@ == (ClientView { state: ClientState::Closed, ..old(self)@ }),
            r is Ok <==> old(self)@.state != ClientState::Closed,
            r matches Err(e) ==> e@ == ClientErrorView::Closed,
    {
        proof {
            use_type_invariant(&*self);
        }
        match self.state {
            ClientState::Closed => Err(ClientError::Closed),
            _ => {
                self.state = ClientState::Closed;
                Ok(())
            },
        }
    }
}

/// The mathematical content of an optional error.
pub open spec fn option_error_view(e: Option<ClientError>) -> Option<ClientErrorView> {
    match e {
        Some(e) => Some(e@),
        None => None,
    }
}

} // verus!
