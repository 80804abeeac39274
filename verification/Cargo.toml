[package]
name = "apm"
version = "0.1.0"
edition = "2021"
publish = false

[dependencies]
anyhow = "1"
axum = "0.6"
base64 = "0.21"
gethostname = "0.4"
http = "0.2"
rand = "0.8"
regex = "1"
reqwest = { version = "0.11", default-features = false, features = ["rustls-tls"] }
serde = { version = "1", features = ["derive"] }
serde_json = "1"
sysinfo = "0.29"
tokio = { version = "1", features = ["rt-multi-thread", "time"] }
tonic = "0.9"
tower-http = { version = "0.4", features = ["trace"] }
tracing = "0.1"
tracing-core = "0.1"
tracing-subscriber = "0.3"
