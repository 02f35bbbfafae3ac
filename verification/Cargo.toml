[package]
name = "kamipad"
version = "0.1.0"
edition = "2021"
publish = false

[dependencies]
fs2 = "0.4"
juniper = "*"
juniper_rocket = "*"
lazy_static = "1"
rocket = { version = "0.5", features = ["json"] }
serde = { version = "1", features = ["derive"] }
serde_json = "1"
slog = "2"
slog-scope = "4"
slog-stdlog = "4"
slog-term = "2"
tokio = { version = "1", features = ["rt-multi-thread", "signal", "sync"] }
uuid = { version = "0.8", features = ["v4"] }

[dev-dependencies]
regex = "1"
