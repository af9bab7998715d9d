[package]
name = "gateway_auth"
version = "0.1.0"
edition = "2021"
publish = false

[dependencies]
axum = "0.6"
bson = "2"
chrono = "0.4"
clap = { version = "4", features = ["derive", "env", "cargo"] }
env_logger = "0.10"
futures = "0.3"
http = "0.2"
hyper = { version = "0.14", features = ["full"] }
hyper-tls = "0.5"
jsonwebtoken = "8"
log = "0.4"
metrics = "0.21"
metrics-exporter-prometheus = { version = "0.12", default-features = false }
metrics-util = "0.15"
mongodb = "2"
native-tls = "0.2"
serde = { version = "1", features = ["derive"] }
serde_json = "1"
tokio = { version = "1", features = ["full"] }
tower-http = { version = "0.4", features = ["trace"] }
