[package]
name = "prost-yat"
version = "0.1.0"
edition = "2021"
publish = false

[dependencies]
prost-build = "*"
prost = "*"
prost-derive = "*"
serde = { version = "1", features = ["derive"] }
serde_derive = "1"
serde_json = "1"
hyper = { version = "0.14", features = ["server", "http1", "tcp", "runtime"] }
tokio = { version = "1", features = ["rt-multi-thread"] }
futures = "0.3"
log = "0.4"
env_logger = "*"
