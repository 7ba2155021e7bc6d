[package]
name = "home_maintenance"
version = "0.1.0"
edition = "2021"
publish = false

[dependencies]
chrono = "0.4"
base64 = "0.22"
anyhow = "1"
askama = "0.12"
axum = { version = "0.8", features = ["multipart"] }
chrono-tz = "0.10"
cookie = { version = "0.18", features = ["signed", "percent-encode"] }
dotenvy = "0.15"
getrandom = "0.3"
once_cell = "1"
serde = { version = "1", features = ["derive"] }
serde_json = "1"
sqlx = { version = "0.8", features = ["runtime-tokio", "any", "sqlite", "postgres", "migrate"] }
thiserror = "2"
tokio = { version = "1", features = ["full"] }
tower-http = { version = "0.6", features = ["fs"] }
tracing = "0.1"
tracing-subscriber = { version = "0.3", features = ["env-filter", "json"] }
uuid = { version = "1", features = ["v7"] }
