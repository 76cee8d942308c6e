[package]
name = "notifico"
version = "0.1.0"
edition = "2021"
publish = false

[dependencies]
serde_json = "=1.0.154"
base64 = "=0.22.1"
hmac = "=0.12.1"
sha2 = "=0.10.9"
aes-gcm = "=0.10.3"
uuid = { version = "=1.29.0", features = ["v7"] }
hex = "=0.4.3"
http = "=1.5.0"
serde = { version = "=1.0.229", features = ["derive"] }
figment = { version = "=0.10.19", features = ["toml", "env"] }
axum = "=0.8.9"
tokio = { version = "=1.54.1", features = ["full"] }
sea-orm = { version = "=1.1.20", default-features = false, features = ["sqlx-sqlite", "runtime-tokio-rustls", "macros"] }
tracing = "=0.1.44"
tracing-subscriber = { version = "=0.3.23", features = ["env-filter"] }
backoff = { version = "=0.4.0", features = ["tokio"] }
fe2o3-amqp = "=0.18.4"
flume = "=0.11.1"
url = "=2.5.8"
lettre = { version = "=0.11.23", default-features = false, features = ["builder", "smtp-transport", "tokio1", "tokio1-rustls-tls"] }
async-trait = "=0.1.92"
chrono = { version = "=0.4.45", default-features = false, features = ["clock"] }
metrics = "=0.24.6"
metrics-exporter-prometheus = { version = "=0.16.2", default-features = false }
utoipa = "=5.5.0"
utoipa-swagger-ui = { version = "=9.0.2", features = ["axum", "vendored"] }
