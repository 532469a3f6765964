[package]
name = "watcher"
version = "0.1.0"
edition = "2021"
publish = false

[dependencies]
serde_yaml = "*"
serde = { version = "*", features = ["derive"] }
serde_json = "*"
inotify = { version = "*", features = ["stream"] }
futures = "*"
tokio = { version = "*", features = ["macros", "rt-multi-thread"] }
clap = "*"
config = "*"
reqwest = { version = "*", default-features = false }
slog = "*"
slog-term = "*"
slog-async = "*"
