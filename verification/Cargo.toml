[package]
name = "semafor"
version = "0.1.0"
edition = "2021"
publish = false

[dependencies]
anyhow = "1"
axum = "0.7"
axum-auth = "0.7"
base64 = "0.22"
chrono = "0.4"
chrono-tz = "0.9"
clap = { version = "4", features = ["derive", "env"] }
rand = "0.8"
rezvrh_scraper = "*"
serde = { version = "1", features = ["derive"] }
tokio = { version = "1", features = ["macros", "rt-multi-thread", "sync", "net", "signal"] }
tower-http = { version = "0.5", features = ["cors"] }
tracing = "0.1"
tracing-subscriber = "0.3"
url = "2"
