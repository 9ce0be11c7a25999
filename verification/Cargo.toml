[package]
name = "nebula-installer"
version = "0.1.0"
edition = "2021"
publish = false

[dependencies]
anyhow = "1"
crossbeam-channel = "0.5"
crossterm = "0.28"
dotenvy = "0.15"
libc = "0.2"
ratatui = "0.29"
serde = { version = "1", features = ["derive"] }
toml = "0.8"
