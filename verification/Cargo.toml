[package]
name = "url_shortener"
version = "0.1.0"
edition = "2021"
publish = false

[dependencies]
axum = "0.7"
base64 = "0.22"
chrono = "0.4"
dotenvy = "0.15"
rand = "0.8"
reqwest = { version = "0.12", default-features = false, features = ["json", "rustls-tls"] }
serde = { version = "1", features = ["derive"] }
serde_json = "1"
sqlx = { version = "0.7", features = ["runtime-tokio", "sqlite"] }
tokio = { version = "1", features = ["full"] }
tower-http = { version = "0.5", features = ["cors", "fs"] }
tracing = "0.1"
tracing-subscriber = "0.3"
urlencoding = "2"
