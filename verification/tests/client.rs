use toolcall::arguments::Arguments;
use toolcall::arithmetic::{arithmetic_registry, Arithmetic};
use toolcall::client::{select, starts_with, ClientError, ClientHandle, ClientState};
use toolcall::content::{ContentBlock, ToolResult};
use toolcall::descriptor::ToolDescriptor;
use toolcall::protocol::{Capabilities, ErrorCode, Peer, Request, Response};
use toolcall::server::ServerEndpoint;
use toolcall::session;
use toolcall::value::Value;

const PLAIN: Capabilities = Capabilities { list_changed: false };

fn server() -> ServerEndpoint<Arithmetic> {
    let mut server: ServerEndpoint<Arithmetic> =
        ServerEndpoint::new(Peer::new("add", "1.0", PLAIN));
    server.begin_start("127.0.0.1", 3001, arithmetic_registry()).unwrap();
    server.complete_start(true).unwrap();
    server
}

fn ready(server: &ServerEndpoint<Arithmetic>) -> ClientHandle {
    let mut client = ClientHandle::new();
    session::open(&mut client, server).unwrap();
    session::initialize(&mut client, server, "mcp-client", "0.1.0", Capabilities {
        list_changed: true,
    })
    .unwrap();
    client
}

fn pair(a: i64, b: i64) -> Arguments {
    let mut args = Arguments::new();
    args.set("a", Value::Number(a));
    args.set("b", Value::Number(b));
    args
}

fn names(tools: &[ToolDescriptor]) -> Vec<String> {
    tools.iter().map(|d| d.name().to_string()).collect()
}

#[test]
fn a_new_handle_is_unopened() {
    let client = ClientHandle::new();
    assert_eq!(client.state(), ClientState::Unopened);
    assert_eq!(client.negotiated(), None);
}

#[test]
fn open_needs_a_reachable_server() {
    let mut client = ClientHandle::new();
    assert_eq!(client.open(false), Err(ClientError::Connection));
    assert_eq!(client.state(), ClientState::Unopened);
    assert_eq!(client.open(true), Ok(()));
    assert_eq!(client.state(), ClientState::Open);
}

#[test]
fn open_twice_is_refused() {
    let mut client = ClientHandle::new();
    client.open(true).unwrap();
    assert_eq!(client.open(true), Err(ClientError::AlreadyOpen));
    assert_eq!(client.open(false), Err(ClientError::AlreadyOpen));
    assert_eq!(client.state(), ClientState::Open);
}

#[test]
fn nothing_is_sent_before_initialization() {
    let mut client = ClientHandle::new();
    assert_eq!(client.begin_list(), Err(ClientError::NotInitialized));
    assert_eq!(client.begin_invoke("Add", pair(1, 2)), Err(ClientError::NotInitialized));
    assert_eq!(client.begin_initialize("c", "1", PLAIN), Err(ClientError::NotInitialized));
    client.open(true).unwrap();
    assert_eq!(client.begin_list(), Err(ClientError::NotInitialized));
    assert_eq!(client.begin_invoke("Add", pair(1, 2)), Err(ClientError::NotInitialized));
    assert_eq!(
        client.complete_invoke(Response::cancelled()),
        Err(ClientError::NotInitialized)
    );
    assert_eq!(
        client.complete_list(Response::Tools(Vec::new()), None),
        Err(ClientError::NotInitialized)
    );
}

#[test]
fn initialization_returns_the_servers_capabilities() {
    let mut client = ClientHandle::new();
    client.open(true).unwrap();
    let hello = client.begin_initialize("mcp-client", "0.1.0", PLAIN).unwrap();
    assert_eq!(hello, Peer::new("mcp-client", "0.1.0", PLAIN));
    let theirs = Peer::new("add", "1.0", Capabilities { list_changed: true });
    assert_eq!(client.complete_initialize(&theirs), Ok(Capabilities { list_changed: true }));
    assert_eq!(client.negotiated(), Some(Capabilities { list_changed: true }));
    assert_eq!(client.begin_list(), Ok(Request::Discovery));
    assert_eq!(
        client.begin_invoke("Add", pair(1, 2)),
        Ok(Request::Invocation { name: "Add".to_string(), arguments: pair(1, 2) })
    );
}

#[test]
fn an_unopened_handle_does_not_take_a_greeting() {
    let mut client = ClientHandle::new();
    let theirs = Peer::new("add", "1.0", PLAIN);
    assert_eq!(client.complete_initialize(&theirs), Err(ClientError::NotInitialized));
    assert_eq!(client.negotiated(), None);
}

#[test]
fn after_close_every_operation_fails_with_closed() {
    let server = server();
    let mut client = ready(&server);
    assert_eq!(client.close(), Ok(()));
    assert_eq!(client.state(), ClientState::Closed);
    assert_eq!(client.begin_invoke("Add", pair(10, 10)), Err(ClientError::Closed));
    assert_eq!(client.begin_list(), Err(ClientError::Closed));
    assert_eq!(client.begin_initialize("c", "1", PLAIN), Err(ClientError::Closed));
    assert_eq!(client.open(true), Err(ClientError::Closed));
    assert_eq!(client.close(), Err(ClientError::Closed));
    assert_eq!(
        session::invoke(&client, &server, "Add", pair(10, 10)),
        Err(ClientError::Closed)
    );
    assert_eq!(session::list_tools(&client, &server, None), Err(ClientError::Closed));
    assert_eq!(
        session::initialize(&mut client, &server, "c", "1", PLAIN),
        Err(ClientError::Closed)
    );
    assert_eq!(session::open(&mut client, &server), Err(ClientError::Closed));
}

#[test]
fn a_closed_handle_reaches_no_server() {
    let mut server = server();
    let mut client = ready(&server);
    client.close().unwrap();
    let before = server.in_flight();
    if let Ok(request) = client.begin_invoke("Add", pair(10, 10)) {
        server.accept(request);
    }
    assert_eq!(server.in_flight(), before);
    assert_eq!(server.accept(Request::Discovery), Some(0));
}

#[test]
fn an_unopened_handle_may_be_closed() {
    let mut client = ClientHandle::new();
    assert_eq!(client.close(), Ok(()));
    assert_eq!(client.open(true), Err(ClientError::Closed));
}

#[test]
fn answers_that_arrive_after_close_are_cancelled() {
    let server = server();
    let mut client = ready(&server);
    let request = client.begin_invoke("Add", pair(10, 10)).unwrap();
    let listing = client.begin_list().unwrap();
    client.close().unwrap();
    let answer = server.handle(&request).unwrap();
    assert_eq!(client.complete_invoke(answer), Err(ClientError::Cancelled));
    let answer = server.handle(&listing).unwrap();
    assert_eq!(client.complete_list(answer, None), Err(ClientError::Cancelled));
    let theirs = Peer::new("add", "1.0", PLAIN);
    assert_eq!(client.complete_initialize(&theirs), Err(ClientError::Cancelled));
}

#[test]
fn invoke_returns_the_result_or_the_servers_code() {
    let server = server();
    let client = ready(&server);
    let result = session::invoke(&client, &server, "Add", pair(10, 10)).unwrap();
    assert_eq!(result.sole_text(), Some("20".to_string()));
    let result = session::invoke(&client, &server, "Sub", pair(10, 3)).unwrap();
    assert_eq!(result.sole_text(), Some("7".to_string()));
    assert_eq!(
        session::invoke(&client, &server, "Mul", pair(10, 3)),
        Err(ClientError::Server {
            code: ErrorCode::NotFound,
            message: "tool not found: Mul".to_string()
        })
    );
    let mut partial = Arguments::new();
    partial.set("a", Value::Number(10));
    assert_eq!(
        session::invoke(&client, &server, "Add", partial),
        Err(ClientError::Server {
            code: ErrorCode::InvalidArgument,
            message: "argument b is required and missing".to_string()
        })
    );
    assert_eq!(
        session::invoke(&client, &server, "Add", pair(i64::MAX, 1)),
        Err(ClientError::Server {
            code: ErrorCode::HandlerError,
            message: "handler failed: arithmetic overflow".to_string()
        })
    );
}

#[test]
fn a_cancelled_answer_keeps_its_code() {
    let server = server();
    let client = ready(&server);
    assert_eq!(
        client.complete_invoke(Response::cancelled()),
        Err(ClientError::Server {
            code: ErrorCode::Cancelled,
            message: "cancelled".to_string()
        })
    );
}

#[test]
fn an_answer_of_the_wrong_shape_is_an_internal_error() {
    let server = server();
    let client = ready(&server);
    assert_eq!(
        client.complete_invoke(Response::Tools(Vec::new())),
        Err(ClientError::Server {
            code: ErrorCode::Internal,
            message: "unexpected answer to an invocation".to_string()
        })
    );
    let content = Response::Content(ToolResult::single(ContentBlock::Text("x".to_string())));
    assert_eq!(
        client.complete_list(content, None),
        Err(ClientError::Server {
            code: ErrorCode::Internal,
            message: "unexpected answer to a listing".to_string()
        })
    );
}

#[test]
fn list_tools_returns_the_servers_order() {
    let server = server();
    let client = ready(&server);
    let tools = session::list_tools(&client, &server, None).unwrap();
    assert_eq!(names(&tools), vec!["Add".to_string(), "Sub".to_string()]);
    session::invoke(&client, &server, "Sub", pair(1, 1)).unwrap();
    session::invoke(&client, &server, "Add", pair(1, 1)).unwrap();
    let again = session::list_tools(&client, &server, None).unwrap();
    assert_eq!(again, tools);
    assert_eq!(tools[0], Arithmetic::Add.descriptor());
    assert_eq!(tools[1], Arithmetic::Sub.descriptor());
}

#[test]
fn list_tools_filters_by_name_prefix() {
    let server = server();
    let client = ready(&server);
    let tools = session::list_tools(&client, &server, Some("A")).unwrap();
    assert_eq!(names(&tools), vec!["Add".to_string()]);
    let tools = session::list_tools(&client, &server, Some("Sub")).unwrap();
    assert_eq!(names(&tools), vec!["Sub".to_string()]);
    let tools = session::list_tools(&client, &server, Some("")).unwrap();
    assert_eq!(names(&tools), vec!["Add".to_string(), "Sub".to_string()]);
    let tools = session::list_tools(&client, &server, Some("Subtract")).unwrap();
    assert!(tools.is_empty());
    let tools = session::list_tools(&client, &server, Some("a")).unwrap();
    assert!(tools.is_empty());
}

#[test]
fn select_keeps_the_order_of_what_it_lets_through() {
    let all = vec![
        ToolDescriptor::new("alpha", "").unwrap(),
        ToolDescriptor::new("beta", "").unwrap(),
        ToolDescriptor::new("alpaca", "").unwrap(),
        ToolDescriptor::new("al", "").unwrap(),
        ToolDescriptor::new("gamma", "").unwrap(),
    ];
    let kept = select(all.clone(), Some("al"));
    assert_eq!(
        names(&kept),
        vec!["alpha".to_string(), "alpaca".to_string(), "al".to_string()]
    );
    assert_eq!(select(all.clone(), None), all);
}

#[test]
fn starts_with_compares_characters() {
    assert!(starts_with("Add", ""));
    assert!(starts_with("Add", "A"));
    assert!(starts_with("Add", "Add"));
    assert!(!starts_with("Add", "Adds"));
    assert!(!starts_with("Add", "d"));
    assert!(!starts_with("", "A"));
    assert!(starts_with("", ""));
    assert!(starts_with("né-tool", "né"));
    assert!(!starts_with("né-tool", "ne"));
}

#[test]
fn a_server_that_does_not_listen_cannot_be_reached() {
    let mut server = server();
    let client = ready(&server);
    server.stop();
    assert_eq!(
        session::invoke(&client, &server, "Add", pair(1, 2)),
        Err(ClientError::Connection)
    );
    assert_eq!(session::list_tools(&client, &server, None), Err(ClientError::Connection));
    let mut fresh = ClientHandle::new();
    assert_eq!(session::open(&mut fresh, &server), Err(ClientError::Connection));
    assert_eq!(fresh.state(), ClientState::Unopened);
    let mut opened = ClientHandle::new();
    opened.open(true).unwrap();
    assert_eq!(
        session::initialize(&mut opened, &server, "c", "1", PLAIN),
        Err(ClientError::Connection)
    );
    assert_eq!(opened.negotiated(), None);
}

#[test]
fn session_initialize_hands_over_the_servers_capabilities() {
    let mut server: ServerEndpoint<Arithmetic> =
        ServerEndpoint::new(Peer::new("add", "1.0", Capabilities { list_changed: true }));
    server.begin_start("127.0.0.1", 3001, arithmetic_registry()).unwrap();
    server.complete_start(true).unwrap();
    let mut client = ClientHandle::new();
    assert_eq!(
        session::initialize(&mut client, &server, "c", "1", PLAIN),
        Err(ClientError::NotInitialized)
    );
    session::open(&mut client, &server).unwrap();
    assert_eq!(session::open(&mut client, &server), Err(ClientError::AlreadyOpen));
    assert_eq!(
        session::initialize(&mut client, &server, "c", "1", PLAIN),
        Ok(Capabilities { list_changed: true })
    );
    assert_eq!(client.negotiated(), Some(Capabilities { list_changed: true }));
}

#[test]
fn client_errors_have_words() {
    assert_eq!(ClientError::Connection.message(), "the server could not be reached");
    assert_eq!(ClientError::NotInitialized.message(), "the client is not initialized");
    assert_eq!(ClientError::AlreadyOpen.message(), "the client is open already");
    assert_eq!(ClientError::Closed.message(), "the client is closed");
    assert_eq!(ClientError::Cancelled.message(), "the request was cancelled");
    let coded = |code: ErrorCode| ClientError::Server { code, message: "m".to_string() }.message();
    assert_eq!(coded(ErrorCode::NotFound), "not found: m");
    assert_eq!(coded(ErrorCode::InvalidArgument), "invalid argument: m");
    assert_eq!(coded(ErrorCode::HandlerError), "handler error: m");
    assert_eq!(coded(ErrorCode::Internal), "internal error: m");
    assert_eq!(coded(ErrorCode::Cancelled), "cancelled: m");
}
