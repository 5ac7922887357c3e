[package]
name = "th_commit"
version = "0.1.0"
edition = "2021"
publish = false

[dependencies]
anyhow = "*"
chrono = { version = "*", default-features = false, features = ["clock"] }
clap = { version = "*", features = ["derive", "env"] }
colored = "*"
serde = { version = "*", features = ["derive"] }
serde_json = "*"
terminal_size = "*"
tokio = { version = "*", features = ["rt-multi-thread", "macros", "net", "time", "sync", "io-util"] }
tracing = "*"
tracing-subscriber = { version = "*", default-features = false, features = ["fmt", "ansi"] }
