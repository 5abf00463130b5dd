[package]
name = "edge-runtime"
version = "0.1.0"
edition = "2021"
publish = false

[dependencies]
wasmtime = { version = "26", default-features = false, features = ["async", "cranelift", "pooling-allocator", "component-model", "wat", "runtime", "std"] }
url = "2"
serde_json = "1"
dashmap = "6"
serde = { version = "1", features = ["derive"] }
toml = "0.8"
thiserror = "1"
anyhow = "1"
tokio = { version = "1", features = ["full"] }
axum = "0.7"
axum-extra = { version = "0.9", features = ["multipart"] }
tower-http = { version = "0.6", features = ["cors", "timeout", "trace"] }
reqwest = { version = "0.12", default-features = false, features = ["rustls-tls"] }
clap = { version = "4", features = ["derive", "env"] }
tracing = "0.1"
tracing-subscriber = { version = "0.3", features = ["env-filter"] }
uuid = { version = "1", features = ["v4"] }
bytes = "1"
