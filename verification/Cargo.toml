[package]
name = "ferrite"
version = "0.1.0"
edition = "2021"
publish = false

[dependencies]
axum = "=0.8.9"
axum-extra = { version = "=0.10.3", features = ["cookie-signed", "cookie-key-expansion"] }
sqlx = { version = "=0.8.6", default-features = false, features = ["runtime-tokio", "sqlite", "derive"] }
reqwest = { version = "=0.12.28", default-features = false, features = ["json", "rustls-tls"] }
tokio = { version = "=1.54.1", features = ["full"] }
serde = { version = "=1.0.229", features = ["derive"] }
serde_json = "=1.0.154"
lofty = "=0.22.4"
walkdir = "=2.5.0"
time = "=0.3.55"
dotenvy = "=0.15.7"
