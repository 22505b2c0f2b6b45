[package]
name = "openfang_runtime"
version = "0.1.0"
edition = "2021"
publish = false

[dependencies]
base64 = "0.22"
rand = "0.8"
sha2 = "0.10"
shlex = "1"
serde = { version = "1", features = ["derive"] }
serde_json = "1"
zeroize = "1"
tokio = { version = "1", features = ["sync"] }
reqwest = { version = "0.12", default-features = false }
tracing = "0.1"
