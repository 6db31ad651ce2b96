[package]
name = "mentalist"
version = "0.3.8"
edition = "2021"
publish = false

[dependencies]
anyhow = "1"
async-stream = "0.3"
async-trait = "0.1"
bollard = "0.20"
chrono = "0.4"
futures-util = "0.3"
regex = "1"
reqwest = { version = "0.12", features = ["json", "stream"] }
reqwest-eventsource = "0.6"
serde = { version = "1", features = ["derive"] }
serde_json = "1"
serde_yaml = "0.9"
thiserror = "1"
tokio = { version = "1", features = ["full"] }
tracing = "0.1"
wasmtime = "36"
wasmtime-wasi = "36"
