[package]
name = "request_identity"
version = "0.1.0"
edition = "2021"
publish = false

[dependencies]
axum = "=0.8.9"
axum-extra = { version = "=0.12.6", features = ["typed-header", "cookie"] }
bb8 = "=0.9.1"
blake3 = "=1.8.7"
clap = { version = "=4.6.7", features = ["derive", "env"] }
color-eyre = "=0.6.5"
diesel = { version = "=2.3.14", default-features = false, features = ["postgres_backend"] }
diesel-async = { version = "=0.9.2", features = ["postgres", "bb8"] }
diesel-derive-enum = { version = "=2.1.0", features = ["postgres"] }
dotenvy = "=0.15.7"
serde = { version = "=1.0.229", features = ["derive"] }
serde_json = "=1.0.154"
serde_with = "*"
supports-color = "=3.0.2"
tokio = { version = "=1.54.1", features = ["full"] }
toml = "=1.1.8"
tower = "=0.5.3"
tracing = "=0.1.44"
tracing-error = "=0.2.1"
tracing-subscriber = "=0.3.23"
tower-http = { version = "=0.7.1", features = ["catch-panic", "trace", "fs"] }
