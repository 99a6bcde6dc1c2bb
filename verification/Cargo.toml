[package]
name = "spotty"
version = "0.1.0"
edition = "2021"
publish = false

[dependencies]
futures = "0.1"
hex = "0.4"
hyper = "0.11"
librespot = { version = "0.2.0", default-features = false }
serde = { version = "1", features = ["derive"] }
serde_json = "1"
sha-1 = "0.8"
tokio = { version = "1", features = ["rt-multi-thread"] }
tokio-core = "0.1"
tokio-io = "0.1"
tokio-signal = "0.2"
