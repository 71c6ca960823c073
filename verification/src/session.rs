//! A client handle and a server endpoint in one process: each client
//! operation carried to the endpoint and back without a transport.

use vstd::prelude::*;
use vstd::string::*;
use crate::arguments::Arguments;
use crate::client::{invocation_view, listing_of, listing_view, filter_view, result_of,
    ClientErrorView, ClientError, ClientHandle, ClientState, ClientView};
use crate::content::{ContentView, ToolResult};
use crate::descriptor::{DescriptorView, ToolDescriptor};
use crate::handler::ToolHandler;
use crate::protocol::{answer, Capabilities, RequestView};
use crate::registry::descriptors;
use crate::server::{ServerEndpoint, ServerState, ServerView};
use crate::value::ValueView;

verus! {

/// What listing through `client` returns from `server`.
pub open spec fn list_through<H: ToolHandler>(
    client: ClientView,
    server: ServerView<H>,
    filter: Option<Seq<char>>,
) -> Result<Seq<DescriptorView>, ClientErrorView> {
    match client.request_gate() {
        Some(e) => Err(e),
        None => if server.state == ServerState::Listening {
            listing_of(answer(server.registry, RequestView::Discovery), filter)
        } else {
            Err(ClientErrorView::Connection)
        },
    }
}

/// What invoking `name` with `arguments` through `client` returns from
/// `server`.
pub open spec fn invoke_through<H: ToolHandler>(
    client: ClientView,
    server: ServerView<H>,
    name: Seq<char>,
    arguments: Seq<(Seq<char>, ValueView)>,
) -> Result<Seq<ContentView>, ClientErrorView> {
    match client.request_gate() {
        Some(e) => Err(e),
        None => if server.state == ServerState::Listening {
            result_of(answer(server.registry, RequestView::Invocation { name, arguments }))
        } else {
            Err(ClientErrorView::Connection)
        },
    }
}

/// Opens `client` onto `server`: the server is reached if it listens.
pub fn open<H>(client: &mut ClientHandle, server: &ServerEndpoint<H>) -> (r: Result<
    (),
    ClientError,
>)
    ensures
        r is Ok <==> old(client)@.state == ClientState::Unopened && server@.state
            == ServerState::Listening,
        r is Ok ==> final(client)@ == (ClientView { state: ClientState::Open, ..old(client)@ }),
        r matches Err(e) ==> final(client)@ == old(client)@ && e@ == match old(client)@.state {
            ClientState::Unopened => ClientErrorView::Connection,
            ClientState::Open => ClientErrorView::AlreadyOpen,
            ClientState::Closed => ClientErrorView::Closed,
        },
{
    let reachable = server.state() == ServerState::Listening;
    client.open(reachable)
}

/// What negotiating through `client` returns from `server`: the server's
/// capabilities, if the handle may negotiate and the server listens.
pub open spec fn negotiate_through<H>(client: ClientView, server: ServerView<H>) -> Result<
    Capabilities,
    ClientErrorView,
> {
    match client.initialize_gate() {
        Some(e) => Err(e),
        None => if server.state == ServerState::Listening {
            Ok(server.identity.capabilities)
        } else {
            Err(ClientErrorView::Connection)
        },
    }
}

/// The mathematical content of what a negotiation returned.
pub open spec fn negotiation_view(r: Result<Capabilities, ClientError>) -> Result<
    Capabilities,
    ClientErrorView,
> {
    match r {
        Ok(c) => Ok(c),
        Err(e) => Err(e@),
    }
}

/// Negotiates capabilities between `client` and `server` and returns the
/// server's. The handle records them; a negotiation that fails leaves the
/// handle as it is.
pub fn initialize<H>(
    client: &mut ClientHandle,
    server: &ServerEndpoint<H>,
    name: &str,
    version: &str,
    capabilities: Capabilities,
) -> (r: Result<Capabilities, ClientError>)
    ensures
        negotiation_view(r) == negotiate_through(old(client)@, server@),
        final(client)@ == match r {
            Ok(c) => ClientView { negotiated: Some(c), ..old(client)@ },
            Err(_) => old(client)@,
        },
{
    match client.begin_initialize(name, version, capabilities) {
        Err(e) => Err(e),
        Ok(hello) => match server.greet(&hello) {
            None => Err(ClientError::Connection),
            Some(own) => client.complete_initialize(&own),
        },
    }
}

/// Lists the tools of `server` through `client`.
pub fn list_tools<H: ToolHandler>(
    client: &ClientHandle,
    server: &ServerEndpoint<H>,
    filter: Option<&str>,
) -> (r: Result<Vec<ToolDescriptor>, ClientError>)
    ensures
        listing_view(r) == list_through(client@, server@, filter_view(filter)),
{
    match client.begin_list() {
        Err(e) => Err(e),
        Ok(request) => match server.handle(&request) {
            None => Err(ClientError::Connection),
            Some(response) => client.complete_list(response, filter),
        },
    }
}

/// Invokes a tool of `server` through `client`.
pub fn invoke<H: ToolHandler>(
    client: &ClientHandle,
    server: &ServerEndpoint<H>,
    name: &str,
    arguments: Arguments,
) -> (r: Result<ToolResult, ClientError>)
    ensures
        invocation_view(r) == invoke_through(client@, server@, name@, arguments@),
{
    match client.begin_invoke(name, arguments) {
        Err(e) => Err(e),
        Ok(request) => match server.handle(&request) {
            None => Err(ClientError::Connection),
            Some(response) => client.complete_invoke(response),
        },
    }
}

/// Once a handle is closed, it sends nothing: it has no request for a
/// listing or an invocation, and through it every listing and every
/// invocation fails with `Closed`, whatever the server is and holds.
pub proof fn lemma_closed_sends_nothing<H: ToolHandler>(
    client: ClientView,
    server: ServerView<H>,
    name: Seq<char>,
    arguments: Seq<(Seq<char>, ValueView)>,
    filter: Option<Seq<char>>,
)
    requires
        client.state == ClientState::Closed,
    ensures
        client.request_gate() == Some(ClientErrorView::Closed),
        client.initialize_gate() == Some(ClientErrorView::Closed),
        invoke_through(client, server, name, arguments) == Err::<
            Seq<ContentView>,
            ClientErrorView,
        >(ClientErrorView::Closed),
        list_through(client, server, filter) == Err::<Seq<DescriptorView>, ClientErrorView>(
            ClientErrorView::Closed,
        ),
{
}

/// A listing without a filter is the registry's descriptors in registration
/// order: the tool registered `i`-th is listed `i`-th.
pub proof fn lemma_listing_order<H: ToolHandler>(client: ClientView, server: ServerView<H>)
    requires
        client.request_gate() is None,
        server.state == ServerState::Listening,
    ensures
        list_through(client, server, None) == Ok::<Seq<DescriptorView>, ClientErrorView>(
            descriptors(server.registry),
        ),
        descriptors(server.registry).len() == server.registry.len(),
        forall|i: int|
            0 <= i < server.registry.len() ==> descriptors(server.registry)[i]
                == server.registry[i].descriptor,
{
}

} // verus!
