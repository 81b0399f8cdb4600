[package]
name = "lian"
version = "0.1.0"
edition = "2021"
publish = false

[dependencies]
anyhow = "1"
chrono = "0.4"
clap = { version = "4", features = ["derive"] }
crossterm = "*"
env_logger = "*"
libc = "0.2"
log = "0.4"
ratatui = "*"
reqwest = { version = "*", features = ["json"] }
serde = { version = "1", features = ["derive"] }
tokio = { version = "1", features = ["full"] }
toml = "*"
unicode-width = "*"
