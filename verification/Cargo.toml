[package]
name = "dynproxy"
version = "0.1.0"
edition = "2021"
publish = false

[dependencies]
http = "1"
anyhow = "1"
bytes = "1"
env_logger = "0.11"
http-body-util = "0.1"
hyper = { version = "1", features = ["http1", "server", "client"] }
hyper-util = { version = "0.1", features = ["client-legacy", "http1", "tokio"] }
log = "0.4"
serde = { version = "1", features = ["derive"] }
tokio = { version = "1", features = ["macros", "rt-multi-thread", "net", "io-util", "time"] }
toml = "0.8"
