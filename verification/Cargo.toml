[package]
name = "rat-nexus"
version = "0.1.0"
edition = "2021"
publish = false

[dependencies]
tokio = { version = "1", features = ["rt", "rt-multi-thread", "sync", "time", "macros"] }
rand = "0.8"
crossterm = "0.28"
ratatui = "0.29"
anyhow = "1"
