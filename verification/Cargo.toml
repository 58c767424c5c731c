[package]
name = "i_uploader"
version = "0.1.0"
edition = "2021"
publish = false

[dependencies]
askama = "=0.16.1"
askama_web = { version = "=0.16.0", features = ["axum-0.8"] }
axum = { version = "=0.8.9", features = ["multipart"] }
axum-extra = { version = "=0.12.6", features = ["typed-header"] }
chrono = "=0.4.45"
clap = { version = "=4.6.7", features = ["derive", "env"] }
futures = "=0.3.34"
image = { version = "=0.25.10", default-features = false, features = ["png", "jpeg", "gif", "bmp", "webp"] }
log = "=0.4.34"
rand = "=0.8.8"
sanitize-filename = "=0.6.0"
serde = { version = "=1.0.229", features = ["derive"] }
serde_json = "=1.0.154"
thiserror = "=2.0.21"
tokio = { version = "=1.54.1", features = ["full"] }
tower-http = { version = "=0.6.11", features = ["fs", "trace"] }
tracing-subscriber = { version = "=0.3.23", features = ["env-filter"] }
url = "=2.5.8"
