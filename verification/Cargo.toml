[package]
name = "sdlt_mcp"
version = "0.1.0"
edition = "2021"
publish = false

[dependencies]
rmcp = { version = "=3.5.1", features = ["transport-io"] }
tokio = { version = "=1.53.2", features = ["rt-multi-thread", "macros", "io-std"] }
serde = { version = "=1.0.229", features = ["derive"] }
serde_json = "=1.0.151"
