[package]
name = "verifier_backend"
version = "0.1.0"
edition = "2021"
publish = false

[dependencies]
rust_ev_verifier_lib = "*"
axum = "*"
tokio = { version = "*", features = ["full"] }
tower-http = { version = "*", features = ["trace"] }
tracing = "*"
tracing-appender = "*"
tracing-subscriber = { version = "*", features = ["env-filter"] }
anyhow = "*"
dotenvy = "*"
futures = "*"
lazy_static = "*"
serde = { version = "*", features = ["derive"] }
