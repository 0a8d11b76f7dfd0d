[package]
name = "chhoto_url"
version = "0.1.0"
edition = "2021"
publish = false

[dependencies]
http = "=1.5.0"
axum = "=0.8.9"
tokio = { version = "=1.54.1", features = ["macros", "rt-multi-thread", "net", "sync"] }
tower = { version = "=0.5.3", features = ["util"] }
tower-http = { version = "=0.6.11", features = ["fs", "compression-gzip", "trace", "set-header", "normalize-path"] }
tower-sessions = "=0.14.0"
log = "=0.4.35"
env_logger = "=0.11.11"
chrono = "=0.4.45"
serde = { version = "=1.0.229", features = ["derive"] }
