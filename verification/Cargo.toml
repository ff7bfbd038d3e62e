[package]
name = "backblaze-b2"
version = "0.1.0"
edition = "2021"
publish = false

[dependencies]
base64 = "0.13"
bytes = "1"
crossbeam = "0.8"
futures = "0.3"
http = "0.2"
hyper = { version = "0.14", features = ["client", "http1", "http2", "tcp", "stream"] }
hyper-tls = "0.5"
percent-encoding = "1"
serde = { version = "1", features = ["derive"] }
serde_json = "1"
sha1 = "0.6"
tokio = { version = "1", features = ["time", "rt"] }
tokio-util = { version = "0.7", features = ["codec"] }
