[package]
name = "stu_core"
version = "0.1.0"
edition = "2021"
publish = false

[dependencies]
ansi-to-tui = "*"
anyhow = "*"
clap = { version = "*", features = ["derive"] }
crossterm = "*"
once_cell = "*"
ratatui = "*"
syntect = { version = "*", default-features = false, features = ["default-fancy"] }
tokio = { version = "*", features = ["rt", "rt-multi-thread", "macros", "sync", "time"] }
tracing = "*"
tracing-subscriber = "*"
