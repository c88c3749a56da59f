[package]
name = "rustpbx"
version = "0.1.0"
edition = "2021"
publish = false

[dependencies]
md5 = "0.7"
mime_guess = "2"
dashmap = "6"
axum = { version = "0.7", features = ["ws"] }
tokio = { version = "1", features = ["full"] }
serde = { version = "1", features = ["derive"] }
serde_json = "1"
sqlx = { version = "0.8", default-features = false, features = ["runtime-tokio", "sqlite"] }
rust-embed = "8"
tracing = "0.1"
tracing-subscriber = { version = "0.3", features = ["env-filter"] }
bytes = "1"
