[package]
name = "speedtest_tui"
version = "0.1.0"
edition = "2021"
publish = false

[dependencies]
tokio = { version = "1", features = ["rt-multi-thread", "macros", "sync", "time"] }
reqwest = { version = "*", default-features = false }
quick-xml = "*"
ratatui = "*"
crossterm = "*"
color-eyre = "*"
