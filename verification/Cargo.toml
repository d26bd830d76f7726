[package]
name = "betfair_adapter"
version = "0.1.0"
edition = "2021"
publish = false

[dependencies]
reqwest = { version = "0.12", default-features = false, features = ["charset", "json", "rustls-tls"] }
serde = "1"
serde_json = "1"
tracing = "0.1"
url = "2"
