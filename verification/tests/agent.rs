use mcp_core::client::ClientBuilder;
use mcp_core::server::Server;
use mcp_core::transport::ServerSseTransport;
use mcp_core::types::Tool;
use toolcall::agent::{bind_listed_tools, AgentDraft};

fn listed(name: &str) -> Tool {
    Tool {
        name: name.to_string(),
        description: Some(format!("the tool {}", name)),
        input_schema: serde_json::Value::Object(serde_json::Map::new()),
        annotations: None,
    }
}

fn draft() -> AgentDraft {
    let protocol = Server::builder("add".to_string(), "1.0".to_string()).build();
    let transport = ServerSseTransport::new("127.0.0.1".to_string(), 3001, protocol);
    let client = ClientBuilder::new(transport).build();
    let builder = rig::providers::openai::Client::new("no-key").agent("gpt-3.5-turbo-0125");
    AgentDraft { builder, client }
}

#[test]
fn listed_tools_are_bound_in_listing_order() {
    let bound = bind_listed_tools(draft(), vec![listed("Add"), listed("Sub")]);
    let agent = bound.builder.build();
    assert_eq!(agent.static_tools, vec!["Add".to_string(), "Sub".to_string()]);
}

#[test]
fn binding_again_keeps_what_is_bound() {
    let bound = bind_listed_tools(draft(), vec![listed("Sub")]);
    let bound = bind_listed_tools(bound, Vec::new());
    let bound = bind_listed_tools(bound, vec![listed("Add"), listed("Mul")]);
    let agent = bound.builder.build();
    assert_eq!(
        agent.static_tools,
        vec!["Sub".to_string(), "Add".to_string(), "Mul".to_string()]
    );
}

#[test]
fn an_empty_listing_binds_nothing() {
    let bound = bind_listed_tools(draft(), Vec::new());
    assert!(bound.builder.build().static_tools.is_empty());
}
