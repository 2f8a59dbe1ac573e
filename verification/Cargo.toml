[package]
name = "simulator_messages"
version = "0.1.0"
edition = "2021"
publish = false

[dependencies]
actix = "0.13"
futures = "0.3"
tokio = { version = "1", features = ["sync"] }
uuid = "1"
xmlrpc = { version = "0.15", default-features = false }
