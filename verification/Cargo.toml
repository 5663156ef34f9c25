[package]
name = "my-tray-app"
version = "0.1.0"
edition = "2021"
publish = false

[dependencies]
tokio = { version = "1", features = ["sync", "rt-multi-thread", "net", "io-util", "macros", "time"] }
axum = "0.7"
serde = { version = "1", features = ["derive"] }
rusqlite = "0.31"
chrono = "0.4"
dirs = "5"
tracing = "0.1"
tracing-subscriber = { version = "0.3", features = ["env-filter"] }
gtk = "0.18"
tray-icon = "0.19"
image = { version = "0.25", default-features = false, features = ["png"] }
