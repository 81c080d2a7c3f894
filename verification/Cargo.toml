[package]
name = "pyromaniac"
version = "0.1.0"
edition = "2021"
publish = false

[dependencies]
anyhow = "1"
axum = "0.6"
dotenvy = "0.15"
futures = "0.3"
libc = "0.2"
serde = { version = "1", features = ["derive"] }
serde_json = "1"
tarpc = { version = "0.33", features = ["full"] }
tempfile = "3"
thiserror = "1"
tokio = { version = "1", features = ["full"] }
tokio-vsock = "0.4"
tracing = "0.1"
tracing-subscriber = "0.3"
