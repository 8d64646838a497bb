[package]
name = "api_skeleton"
version = "0.1.0"
edition = "2021"
publish = false

[dependencies]
axum = "*"
chrono = "=0.4.45"
dotenvy = "*"
sea-orm = { version = "*", features = ["sqlx-postgres", "runtime-tokio-rustls"] }
serde = { version = "*", features = ["derive"] }
serde_json = "*"
tokio = { version = "*", features = ["rt-multi-thread", "macros", "net"] }
tower-http = { version = "*", features = ["trace"] }
tracing = { version = "*", features = ["log"] }
tracing-appender = "*"
tracing-subscriber = { version = "*", features = ["env-filter"] }
uuid = { version = "=1.27.0", features = ["v4"] }
