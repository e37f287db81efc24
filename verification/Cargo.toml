[package]
name = "blog_core"
version = "0.1.0"
edition = "2021"
publish = false

[dependencies]
anyhow = "1"
arc-swap = "1"
axum = "0.7"
axum-embed = "0.1"
build_id = "0.2"
chrono = "0.4"
dotenvy = "0.15"
r2d2 = "0.8"
r2d2_sqlite = "0.25"
regex = "1"
rusqlite = { version = "0.32", features = ["bundled"] }
rust-embed = "8"
serde = { version = "1", features = ["derive"] }
serde_json = "1"
sqlite-vec = "0.1"
tera = "1"
tokio = { version = "1", features = ["full"] }
tower-http = { version = "0.5", features = ["trace"] }
tracing = "0.1"
tracing-subscriber = { version = "0.3", features = ["env-filter"] }
