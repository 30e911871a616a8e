[package]
name = "asset"
version = "0.1.0"
edition = "2021"
publish = false

[dependencies]
anyhow = "=1.0.104"
aws-config = { version = "=1.13.0", default-features = false, features = ["behavior-version-latest", "default-https-client", "rt-tokio"] }
aws-sdk-s3 = { version = "=1.157.0", default-features = false, features = ["http-1x", "default-https-client", "rt-tokio"] }
axum = { version = "=0.7.9", features = ["multipart"] }
bytes = "=1.12.1"
chrono = { version = "=0.4.45", features = ["serde"] }
dotenvy = "=0.15.7"
futures = "=0.3.34"
image = "=0.25.10"
mime = "=0.3.17"
mongodb = { version = "3", default-features = false, features = ["compat-3-0-0", "rustls-tls"] }
serde = { version = "=1.0.229", features = ["derive"] }
serde_json = "=1.0.154"
thiserror = "=1.0.69"
tokio = { version = "=1.54.1", features = ["macros", "rt-multi-thread", "net"] }
tracing = "=0.1.44"
tracing-subscriber = { version = "=0.3.23", features = ["env-filter"] }
uuid = { version = "=1.29.0", features = ["v4"] }
