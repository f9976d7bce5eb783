[package]
name = "paxos"
version = "0.1.0"
edition = "2021"
publish = false

[dependencies]
tokio = { version = "*", features = ["sync", "rt", "macros", "rt-multi-thread"] }
uuid = { version = "*", features = ["v7"] }
anyhow = "*"
tracing = "*"
