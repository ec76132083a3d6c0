[package]
name = "shplit"
version = "0.1.0"
edition = "2021"
publish = false

[dependencies]
livesplit-core = "*"
crossterm = "*"
ratatui = "*"
nfde = "*"
directories = "*"
serde = { version = "*", features = ["derive"] }
toml = "*"
