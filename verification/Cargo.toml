[package]
name = "paired_node"
version = "0.1.0"
edition = "2021"
publish = false

[dependencies]
iroh = "*"
tokio = { version = "1", features = ["full"] }
serde_json = "1"
uuid = { version = "1", features = ["v4"] }
anyhow = "1"
tracing = "0.1"
