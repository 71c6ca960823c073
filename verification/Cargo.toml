[package]
name = "toolcall"
version = "0.1.0"
edition = "2021"
publish = false

[dependencies]
anyhow = "=1.0.104"
mcp-core = { version = "=0.1.46", features = ["sse"] }
mcp-core-macros = "=0.1.22"
rig-core = { version = "=0.12.0", features = ["mcp"] }
schemars = "=0.8.22"
serde = { version = "=1.0.229", features = ["derive"] }
serde_json = "=1.0.154"
tokio = { version = "=1.54.1", features = ["macros", "rt-multi-thread"] }
tracing = "=0.1.44"
tracing-subscriber = "=0.3.23"
