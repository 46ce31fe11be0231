[package]
name = "media_auth"
version = "0.1.0"
edition = "2021"
publish = false

[dependencies]
oauth2 = { version = "=5.0.0", default-features = false }
chrono = { version = "=0.4.45", default-features = false, features = ["clock"] }
reqwest = { version = "=0.13.5", default-features = false, features = ["json", "blocking"] }
tokio = { version = "=1.53.2", features = ["rt-multi-thread", "macros"] }
tokio-postgres = "=0.7.18"
serde = { version = "=1.0.229", features = ["derive"] }
serde_json = "=1.0.151"
dotenvy = "=0.15.7"
anyhow = "=1.0.104"
rodio = "*"
