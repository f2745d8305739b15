[package]
name = "nerd"
version = "0.0.1"
edition = "2021"
publish = false

[dependencies]
serde_json = "1"
sha2 = "0.10"
hex = "0.4"
serde = { version = "1", features = ["derive"] }
anyhow = "1"
axum = { version = "0.7", features = ["ws"] }
tokio = { version = "1", features = ["full"] }
tokio-tungstenite = "0.21"
futures = "0.3"
sqlx = { version = "0.8", default-features = false, features = ["runtime-tokio", "sqlite", "migrate"] }
rusqlite = { version = "0.32", features = ["bundled"] }
reqwest = { version = "0.12", default-features = false, features = ["json"] }
figment = { version = "0.10", features = ["toml", "env"] }
chrono = "0.4"
tracing = "0.1"
tracing-subscriber = { version = "0.3", features = ["env-filter"] }
tower-http = { version = "0.5", features = ["trace"] }
