[package]
name = "canned_responder"
version = "0.1.0"
edition = "2021"
publish = false

[dependencies]
tokio = { version = "1", features = ["rt-multi-thread", "net", "io-util"] }
monoio = { version = "0.2" }
