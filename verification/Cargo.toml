[package]
name = "better_spotify"
version = "0.1.0"
edition = "2021"
publish = false

[dependencies]
rand = "0.8"
sha2 = "0.10"
base64 = "0.22"
reqwest = { version = "0.12", default-features = false, features = ["json"] }
serde = { version = "1", features = ["derive"] }
serde_json = "1"
tokio = { version = "1", features = ["rt-multi-thread", "macros", "time", "net"] }
neo4rs = "0.8"
axum = "0.7"
axum-extra = { version = "0.9", features = ["cookie"] }
cookie = "0.18"
uuid = { version = "1", features = ["v4"] }
chrono = "0.4"
dotenvy = "0.15"
tracing = "0.1"
anyhow = "1"
