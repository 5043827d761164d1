[package]
name = "warm_instance"
version = "0.1.0"
edition = "2021"
publish = false

[dependencies]
anyhow = "=1.0.104"
async-tungstenite = { version = "=0.35.0", default-features = false, features = ["tokio-runtime", "handshake", "futures-03-sink"] }
cynic = { version = "=3.14.0", default-features = false }
futures = "=0.3.34"
graphql-ws-client = { version = "=0.13.0", default-features = false, features = ["client-cynic"] }
libc = "=0.2.191"
more-asserts = "=0.3.1"
reqwest = { version = "=0.13.5", default-features = false }
tokio = { version = "=1.54.1", features = ["rt", "net", "io-util"] }
tracing = "=0.1.44"
