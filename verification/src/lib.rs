//! A small tool-invocation protocol core: named tools with declared
//! parameters, a registry that keeps them in registration order, an executor
//! that validates arguments and runs a tool, and the state machines of the
//! server endpoint, the client handle and the agent bridge that sit on top.

pub mod agent;
pub mod arguments;
pub mod arithmetic;
pub mod bridge;
pub mod client;
pub mod content;
pub mod decimal;
pub mod descriptor;
pub mod executor;
pub mod handler;
pub mod protocol;
pub mod registry;
pub mod search;
pub mod server;
pub mod session;
pub mod value;
