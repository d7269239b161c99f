[package]
name = "rq"
version = "0.1.0"
edition = "2021"
publish = false

[dependencies]
anyhow = "1"
bytes = "1"
crossterm = "0.27"
encoding_rs = "0.8"
mime = "0.3"
ratatui = "0.25"
reqwest = { version = "0.11", default-features = false }
tokio = { version = "1", features = ["rt-multi-thread", "macros", "sync"] }
tui-input = "0.8"
