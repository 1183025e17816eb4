[package]
name = "consort"
version = "0.1.0"
edition = "2021"
publish = false

[dependencies]
matrix-sdk = { version = "=0.16.1", default-features = false, features = ["markdown", "native-tls"] }
mime = "=0.3.17"
image = { version = "=0.25.10", default-features = false, features = ["png"] }
serde = { version = "=1.0.229", features = ["derive"] }
tokio = { version = "=1.54.1", features = ["rt", "sync"] }
tracing = "=0.1.44"
