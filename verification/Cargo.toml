[package]
name = "registration_server"
version = "0.1.0"
edition = "2021"
publish = false

[dependencies]
anyhow = "1"
arc-swap = "=1.9.2"
axum = "=0.8.9"
hyper = "1"
notify = "=8.2.0"
rcgen = { version = "=0.14.10", default-features = false, features = ["pem", "ring", "x509-parser"] }
rustls = { version = "=0.23.45", default-features = false, features = ["ring", "logging", "std", "tls12"] }
rustls-pemfile = "=2.2.0"
rustls-pki-types = "=1.15.1"
serde = { version = "1", features = ["derive"] }
serde_json = "1"
time = "=0.3.55"
tokio = { version = "1", features = ["full"] }
tokio-rustls = { version = "=0.26.6", default-features = false, features = ["ring", "logging", "tls12"] }
tower-http = { version = "0.6", features = ["trace"] }
tracing = "0.1"
tracing-subscriber = { version = "0.3", features = ["env-filter"] }
x509-parser = "=0.18.1"
