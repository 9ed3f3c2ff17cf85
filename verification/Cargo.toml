[package]
name = "phi_agent"
version = "0.1.0"
edition = "2021"
publish = false

[dependencies]
regex = "1"
chrono = "0.4"
uuid = { version = "1", features = ["v4"] }
serde = { version = "1", features = ["derive"] }
serde_json = "1"
clap = { version = "4", features = ["derive", "env"] }
tokio = { version = "1", features = ["sync", "macros", "rt"] }
tokio-util = "0.7"
fs2 = "0.4"
dotenvy = "0.15"
anyhow = "1"
