[package]
name = "little_nova"
version = "0.1.0"
edition = "2021"
publish = false

[dependencies]
uuid = { version = "*", features = ["v4"] }
serde = { version = "*", features = ["derive"] }
chrono = { version = "*", features = ["serde"] }
tokio = { version = "*", features = ["rt-multi-thread", "macros", "signal"] }
axum = "*"
axum-server = { version = "*", features = ["tls-rustls"] }
tower = { version = "*", features = ["timeout", "util"] }
tower-http = { version = "*", features = ["trace", "add-extension"] }
askama = "*"
tracing = "*"
tracing-subscriber = { version = "*", features = ["env-filter"] }
