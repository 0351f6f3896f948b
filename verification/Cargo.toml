[package]
name = "tui_core"
version = "0.1.0"
edition = "2021"
publish = false

[dependencies]
humantime = "*"
clap = { version = "*", features = ["derive"] }
color-eyre = "*"
config = { version = "*", default-features = false, features = ["toml"] }
crossterm = { version = "*", features = ["event-stream"] }
dirs = "*"
futures = "*"
ratatui = "*"
serde = { version = "*", features = ["derive"] }
tokio = { version = "*", features = ["macros", "rt-multi-thread", "time"] }
tracing = "*"
tracing-subscriber = { version = "*", features = ["env-filter"] }
