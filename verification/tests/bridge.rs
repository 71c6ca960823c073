use toolcall::arguments::Arguments;
use toolcall::arithmetic::{arithmetic_registry, Arithmetic};
use toolcall::bridge::{feedback, AgentBridge};
use toolcall::client::{ClientError, ClientHandle};
use toolcall::descriptor::ToolDescriptor;
use toolcall::protocol::{Capabilities, ErrorCode, Peer, Request};
use toolcall::server::ServerEndpoint;
use toolcall::session;
use toolcall::value::Value;

const PLAIN: Capabilities = Capabilities { list_changed: false };

fn wired() -> (ServerEndpoint<Arithmetic>, ClientHandle, AgentBridge) {
    let mut server: ServerEndpoint<Arithmetic> =
        ServerEndpoint::new(Peer::new("add", "1.0", PLAIN));
    server.begin_start("127.0.0.1", 3001, arithmetic_registry()).unwrap();
    server.complete_start(true).unwrap();
    let mut client = ClientHandle::new();
    session::open(&mut client, &server).unwrap();
    session::initialize(&mut client, &server, "mcp-client", "0.1.0", PLAIN).unwrap();
    let tools = session::list_tools(&client, &server, None).unwrap();
    let bridge = AgentBridge::new().bind_tools(&tools);
    (server, client, bridge)
}

fn pair(a: i64, b: i64) -> Arguments {
    let mut args = Arguments::new();
    args.set("a", Value::Number(a));
    args.set("b", Value::Number(b));
    args
}

fn bound_names(bridge: &AgentBridge) -> Vec<String> {
    bridge.bindings().iter().map(|d| d.name().to_string()).collect()
}

#[test]
fn binding_follows_the_listing() {
    let (_, _, bridge) = wired();
    assert_eq!(bound_names(&bridge), vec!["Add".to_string(), "Sub".to_string()]);
    assert!(bridge.is_bound("Add"));
    assert!(bridge.is_bound("Sub"));
    assert!(!bridge.is_bound("Mul"));
    assert!(!AgentBridge::new().is_bound("Add"));
}

#[test]
fn binding_again_adds_behind_what_is_bound() {
    let first = vec![ToolDescriptor::new("one", "").unwrap()];
    let more = vec![
        ToolDescriptor::new("two", "").unwrap(),
        ToolDescriptor::new("three", "").unwrap(),
    ];
    let bridge = AgentBridge::new().bind_tools(&first).bind_tools(&Vec::new()).bind_tools(&more);
    assert_eq!(
        bound_names(&bridge),
        vec!["one".to_string(), "two".to_string(), "three".to_string()]
    );
}

#[test]
fn a_selected_call_goes_through_the_client() {
    let (server, client, bridge) = wired();
    let outcome = bridge.dispatch(&client, &server, "Add", pair(10, 10)).unwrap();
    assert_eq!(outcome.as_ref().unwrap().sole_text(), Some("20".to_string()));
    assert_eq!(feedback(&outcome), "20");
    let outcome = bridge.dispatch(&client, &server, "Sub", pair(10, 3)).unwrap();
    assert_eq!(feedback(&outcome), "7");
}

#[test]
fn a_name_that_is_not_bound_is_no_call() {
    let (server, client, bridge) = wired();
    assert_eq!(bridge.dispatch(&client, &server, "Mul", pair(2, 3)), None);
    assert_eq!(bridge.begin_call(&client, "Mul", pair(2, 3)), None);
}

#[test]
fn begin_call_hands_out_the_request_of_the_client() {
    let (_, mut client, bridge) = wired();
    assert_eq!(
        bridge.begin_call(&client, "Add", pair(1, 2)),
        Some(Ok(Request::Invocation { name: "Add".to_string(), arguments: pair(1, 2) }))
    );
    client.close().unwrap();
    assert_eq!(bridge.begin_call(&client, "Add", pair(1, 2)), Some(Err(ClientError::Closed)));
}

#[test]
fn a_failed_call_is_fed_back_in_words() {
    let (server, mut client, bridge) = wired();
    let mut partial = Arguments::new();
    partial.set("a", Value::Number(10));
    let outcome = bridge.dispatch(&client, &server, "Add", partial).unwrap();
    assert_eq!(
        outcome,
        Err(ClientError::Server {
            code: ErrorCode::InvalidArgument,
            message: "argument b is required and missing".to_string()
        })
    );
    assert_eq!(
        feedback(&outcome),
        "error: invalid argument: argument b is required and missing"
    );
    let outcome = bridge.dispatch(&client, &server, "Add", pair(i64::MAX, i64::MAX)).unwrap();
    assert_eq!(feedback(&outcome), "error: handler error: handler failed: arithmetic overflow");
    client.close().unwrap();
    let outcome = bridge.dispatch(&client, &server, "Add", pair(1, 2)).unwrap();
    assert_eq!(outcome, Err(ClientError::Closed));
    assert_eq!(feedback(&outcome), "error: the client is closed");
}

#[test]
fn a_bound_tool_that_the_server_lost_is_not_found() {
    let (mut server, client, bridge) = wired();
    server.stop();
    let mut only_sub = toolcall::registry::ToolRegistry::new();
    only_sub.register(Arithmetic::Sub.descriptor(), Arithmetic::Sub).unwrap();
    server.begin_start("127.0.0.1", 3001, only_sub).unwrap();
    server.complete_start(true).unwrap();
    let outcome = bridge.dispatch(&client, &server, "Add", pair(1, 2)).unwrap();
    assert_eq!(feedback(&outcome), "error: not found: tool not found: Add");
    let outcome = bridge.dispatch(&client, &server, "Sub", pair(1, 2)).unwrap();
    assert_eq!(feedback(&outcome), "-1");
}
