[package]
name = "webtransport"
version = "0.1.0"
edition = "2021"
publish = false

[dependencies]
bytes = "*"
deno_tls = "*"
http = "=1.5.0"
quinn = "=0.11.12"
serde = { version = "=1.0.229", features = ["derive"] }
tokio = { version = "*", features = ["macros", "rt", "sync"] }
tokio-rustls = { version = "=0.26.6", default-features = false, features = ["ring", "logging", "tls12"] }
url = "=2.5.8"
