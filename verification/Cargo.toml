[package]
name = "maelstrom_node"
version = "0.1.0"
edition = "2021"
publish = false

[dependencies]
arc-swap = "*"
dashmap = "*"
serde = { version = "*", features = ["derive"] }
serde_json = "*"
serde_repr = "*"
tokio = { version = "*", features = ["macros", "rt-multi-thread", "io-std", "io-util", "time", "sync"] }
tracing = "*"
tracing-subscriber = "*"
