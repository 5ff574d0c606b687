[package]
name = "minute_clock"
version = "0.1.0"
edition = "2021"
publish = false

[dependencies]
anyhow = "1"
chrono = { version = "0.4", default-features = false, features = ["clock", "std"] }
libc = "0.2"
ratatui = "*"
tokio = { version = "1", features = ["rt", "macros", "net", "sync"] }
tui-big-text = "*"
