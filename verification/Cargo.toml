[package]
name = "kyoto"
version = "0.1.0"
edition = "2021"
publish = false

[dependencies]
bytes = "1"
httparse = "1"
serde_json = "1"
parking_lot = "0.12"
tokio = { version = "1", features = ["full"] }
structopt = "0.3"
tracing = "0.1"
tracing-subscriber = "0.3"
futures = "0.3"
